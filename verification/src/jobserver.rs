//! A pool of tokens in the protocol of GNU make's jobserver.

use crate::text::{render_decimal, render_signed};
use crate::text;
use vstd::prelude::*;
use vstd::string::*;

verus! {

/// Why a pool could not be made.
#[derive(Debug)]
pub enum JobserverError {
    /// A pool without tokens was asked for.
    ZeroCapacity,
    /// The pipe took fewer bytes than there are tokens.
    ShortPriming {
        /// What happened.
        message: String,
    },
}

/// A pool of tokens on a pipe.
#[derive(Debug)]
pub struct JobserverPool {
    capacity: usize,
    read_fd: i32,
    write_fd: i32,
}

/// The bytes that fill a pipe: one for each token.
pub fn token_bytes(capacity: usize) -> (r: Result<Vec<u8>, JobserverError>)
    ensures
        match r {
            Ok(b) => capacity > 0 && b@ == Seq::new(capacity as nat, |i: int| '+' as u8),
            Err(e) => capacity == 0 && e is ZeroCapacity,
        },
{
    if capacity == 0 {
        return Err(JobserverError::ZeroCapacity);
    }
    let mut b: Vec<u8> = Vec::new();
    let mut i: usize = 0;
    while i < capacity
        invariant
            i <= capacity,
            b@ == Seq::new(i as nat, |k: int| '+' as u8),
        decreases capacity - i,
    {
        b.push('+' as u8);
        i = i + 1;
        assert(b@ =~= Seq::new(i as nat, |k: int| '+' as u8));
    }
    Ok(b)
}

impl JobserverPool {
    /// The number of tokens that the pool was made with.
    pub closed spec fn tokens(&self) -> nat {
        self.capacity as nat
    }

    /// The two ends of the pipe.
    pub closed spec fn ends(&self) -> (i32, i32) {
        (self.read_fd, self.write_fd)
    }

    /// A pool on a pipe that has taken `written` of its token bytes.
    pub fn create(capacity: usize, read_fd: i32, write_fd: i32, written: usize) -> (r: Result<
        Self,
        JobserverError,
    >)
        ensures
            match r {
                Ok(pool) => capacity > 0 && written == capacity && pool.tokens() == capacity
                    && pool.ends() == (read_fd, write_fd),
                Err(JobserverError::ZeroCapacity) => capacity == 0,
                Err(JobserverError::ShortPriming { message }) => capacity > 0 && written
                    != capacity && message@ == "jobserver pipe priming wrote "@ + text::decimal(
                    written as nat,
                ) + " of "@ + text::decimal(capacity as nat) + " bytes"@,
            },
    {
        if capacity == 0 {
            return Err(JobserverError::ZeroCapacity);
        }
        if written != capacity {
            let mut message = "jobserver pipe priming wrote ".to_owned();
            let w = render_decimal(written as u128);
            let c = render_decimal(capacity as u128);
            message.append(w.as_str());
            message.append(" of ");
            message.append(c.as_str());
            message.append(" bytes");
            return Err(JobserverError::ShortPriming { message });
        }
        Ok(JobserverPool { capacity, read_fd, write_fd })
    }

    /// The number of tokens that the pool was made with.
    pub fn capacity(&self) -> (n: usize)
        ensures
            n == self.tokens(),
    {
        self.capacity
    }

    /// What a process is told to find the pool: both ends of the pipe.
    pub fn auth_string(&self) -> (r: String)
        ensures
            r@ == text::signed_decimal(self.ends().0 as int).push(',') + text::signed_decimal(
                self.ends().1 as int,
            ),
    {
        let mut r = render_signed(self.read_fd as i64);
        r.push(',');
        let w = render_signed(self.write_fd as i64);
        r.append(w.as_str());
        r
    }
}

/// A pool hands out as many tokens as were written for it, through the pipe that
/// it was given, and there is none without tokens.
pub proof fn pools_hold_their_tokens(
    capacity: usize,
    read_fd: i32,
    write_fd: i32,
    bytes: Result<Vec<u8>, JobserverError>,
    r: Result<JobserverPool, JobserverError>,
    pool: JobserverPool,
    n: usize,
    auth: String,
)
    requires
        call_ensures(token_bytes, (capacity,), bytes),
        bytes is Ok,
        call_ensures(JobserverPool::create, (capacity, read_fd, write_fd, bytes->Ok_0@.len() as usize), r),
        r == Ok::<JobserverPool, JobserverError>(pool),
        call_ensures(JobserverPool::capacity, (&pool,), n),
        call_ensures(JobserverPool::auth_string, (&pool,), auth),
    ensures
        n == capacity && n > 0,
        bytes->Ok_0@.len() == n,
        forall|i: int| 0 <= i < n ==> #[trigger] bytes->Ok_0@[i] == 43,
        auth@ == text::signed_decimal(read_fd as int) + ","@ + text::signed_decimal(
            write_fd as int,
        ),
{
    reveal_strlit(",");
    assert(","@ =~= seq![',']);
    assert(text::signed_decimal(read_fd as int).push(',') =~= text::signed_decimal(read_fd as int)
        + ","@);
}

/// No tokens make no pool, and neither does a pipe that did not take them all.
pub proof fn short_pools_are_refused(
    capacity: usize,
    read_fd: i32,
    write_fd: i32,
    written: usize,
    bytes: Result<Vec<u8>, JobserverError>,
    r: Result<JobserverPool, JobserverError>,
)
    requires
        call_ensures(token_bytes, (capacity,), bytes),
        call_ensures(JobserverPool::create, (capacity, read_fd, write_fd, written), r),
    ensures
        bytes is Ok <==> capacity > 0,
        r is Ok <==> capacity > 0 && written == capacity,
        capacity == 0 ==> r is Err && r->Err_0 is ZeroCapacity && bytes is Err && bytes->Err_0
            is ZeroCapacity,
        capacity > 0 && written != capacity ==> (r matches Err(
            JobserverError::ShortPriming { message },
        ) && message@ == "jobserver pipe priming wrote "@ + text::decimal(written as nat)
            + " of "@ + text::decimal(capacity as nat) + " bytes"@),
{
}

} // verus!
