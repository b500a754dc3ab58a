//! The two kinds of handshake server, by the numbers that tell them apart.

use vstd::prelude::*;

verus! {

/// What every handshake server answers.
pub trait THandshakeServer {
    spec fn first(&self) -> usize;

    spec fn second(&self) -> usize;

    fn bbb(&self) -> (r: usize)
        ensures
            r == self.first(),
    ;

    fn ccc(&self) -> (r: usize)
        ensures
            r == self.second(),
    ;
}

pub struct SimpleHandshakeServer {}

pub struct ComplexHandshakeServer {}

impl THandshakeServer for SimpleHandshakeServer {
    open spec fn first(&self) -> usize {
        222
    }

    open spec fn second(&self) -> usize {
        333
    }

    fn bbb(&self) -> (r: usize) {
        222
    }

    fn ccc(&self) -> (r: usize) {
        333
    }
}

impl THandshakeServer for ComplexHandshakeServer {
    open spec fn first(&self) -> usize {
        555
    }

    open spec fn second(&self) -> usize {
        666
    }

    fn bbb(&self) -> (r: usize) {
        555
    }

    fn ccc(&self) -> (r: usize) {
        666
    }
}

impl SimpleHandshakeServer {
    /// The sum of the server's two numbers.
    pub fn print(&self) -> (r: usize)
        ensures
            r == 555,
    {
        self.bbb() + self.ccc()
    }
}

impl ComplexHandshakeServer {
    /// The sum of the server's two numbers.
    pub fn print(&self) -> (r: usize)
        ensures
            r == 1221,
    {
        self.bbb() + self.ccc()
    }
}

} // verus!
