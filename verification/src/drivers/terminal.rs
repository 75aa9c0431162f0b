//! Serial terminal line discipline: accumulates typed bytes into a line
//! buffer, honoring backspace, delete, kill-word and escape sequences, and
//! reports the finished line on carriage return together with the bytes to
//! echo back to the terminal.

use vstd::prelude::*;

verus! {

/// The three bytes echoed to erase one character on screen.
pub open spec fn backspace_echo() -> Seq<u8> {
    seq![8u8, 32u8, 8u8]
}

/// `n` copies of the erase sequence.
pub open spec fn bs_repeat(n: nat) -> Seq<u8>
    decreases n,
{
    if n == 0 {
        Seq::empty()
    } else {
        backspace_echo() + bs_repeat((n - 1) as nat)
    }
}

/// The buffer after a kill-word: trailing bytes are dropped until a space
/// has been dropped or the buffer is empty.
pub open spec fn etb_pop(buf: Seq<u8>) -> Seq<u8>
    decreases buf.len(),
{
    if buf.len() == 0 {
        buf
    } else if buf.last() == 32 {
        buf.drop_last()
    } else {
        etb_pop(buf.drop_last())
    }
}

/// How many erase sequences a kill-word echoes: one per dropped byte that
/// is not the terminating space.
pub open spec fn etb_echo(buf: Seq<u8>) -> nat
    decreases buf.len(),
{
    if buf.len() == 0 {
        0
    } else if buf.last() == 32 {
        0
    } else {
        1 + etb_echo(buf.drop_last())
    }
}

/// The terminal transition: from a line buffer `buf` and the
/// skip-next-byte state left by an escape byte, consuming `bytes` yields
/// the new buffer, the finished line if a carriage return arrived — input
/// after it is discarded, and the buffer is kept — and the echo bytes.
pub open spec fn terminal_run(buf: Seq<u8>, skip: bool, bytes: Seq<u8>) -> (
    Seq<u8>,
    Option<Seq<u8>>,
    Seq<u8>,
)
    decreases bytes.len(),
{
    if bytes.len() == 0 {
        (buf, None, Seq::empty())
    } else {
        let b = bytes[0];
        let rest = bytes.drop_first();
        if skip {
            terminal_run(buf, false, rest)
        } else if b == 8 || b == 127 {
            if buf.len() > 0 {
                let t = terminal_run(buf.drop_last(), false, rest);
                (t.0, t.1, backspace_echo() + t.2)
            } else {
                terminal_run(buf, false, rest)
            }
        } else if b == 13 {
            (buf, Some(buf), seq![13u8, 10u8])
        } else if b == 23 {
            let t = terminal_run(etb_pop(buf), false, rest);
            (t.0, t.1, bs_repeat(etb_echo(buf)) + t.2)
        } else if b == 27 {
            terminal_run(buf, true, rest)
        } else {
            let t = terminal_run(buf.push(b), false, rest);
            (t.0, t.1, seq![b] + t.2)
        }
    }
}

/// The line editor of the serial console.
pub struct Terminal {
    buffer: Vec<u8>,
}

impl Terminal {
    /// The line accumulated so far.
    pub closed spec fn line(&self) -> Seq<u8> {
        self.buffer@
    }

    pub fn new() -> (r: Self)
        ensures
            r.line() == Seq::<u8>::empty(),
    {
        Self { buffer: Vec::new() }
    }

    /// Feed received bytes through the line discipline.  The first result
    /// is the finished line if a carriage return arrived; the second is
    /// what to echo back.  An escape byte at the end of one call does not
    /// carry its skip into the next call.
    pub fn receive(&mut self, bytes: &[u8]) -> (r: (Option<Vec<u8>>, Vec<u8>))
        ensures
            ({
                let t = terminal_run(old(self).line(), false, bytes@);
                &&& final(self).line() == t.0
                &&& (match (r.0, t.1) {
                    (Some(v), Some(l)) => v@ == l,
                    (None, None) => true,
                    _ => false,
                })
                &&& r.1@ == t.2
            }),
    {
        let mut echo: Vec<u8> = Vec::new();
        let mut skip = false;
        let mut i: usize = 0;
        proof {
            assert(bytes@.skip(0) =~= bytes@);
            assert(echo@ + terminal_run(self.buffer@, false, bytes@).2 =~= terminal_run(
                self.buffer@,
                false,
                bytes@,
            ).2);
        }
        while i < bytes.len()
            invariant
                i <= bytes@.len(),
                ({
                    let full = terminal_run(old(self).line(), false, bytes@);
                    let t = terminal_run(self.buffer@, skip, bytes@.skip(i as int));
                    &&& full.0 == t.0
                    &&& full.1 == t.1
                    &&& full.2 == echo@ + t.2
                }),
            decreases bytes@.len() - i,
        {
            let ghost full = terminal_run(old(self).line(), false, bytes@);
            let b = bytes[i];
            proof {
                assert(bytes@.skip(i as int).drop_first() =~= bytes@.skip(i as int + 1));
                assert(bytes@.skip(i as int)[0] == bytes@[i as int]);
            }
            if skip {
                skip = false;
            } else if b == 8 || b == 127 {
                if self.buffer.len() > 0 {
                    self.buffer.pop();
                    echo.push(8);
                    echo.push(32);
                    echo.push(8);
                    proof {
                        let t = terminal_run(self.buffer@, false, bytes@.skip(i as int + 1));
                        assert(echo@ + t.2 =~= full.2);
                    }
                }
            } else if b == 13 {
                echo.push(13);
                echo.push(10);
                let line = self.buffer.clone();
                proof {
                    assert(line@ =~= self.buffer@);
                    assert(echo@ =~= full.2);
                }
                return (Some(line), echo);
            } else if b == 23 {
                let ghost buf0 = self.buffer@;
                let ghost echo0 = echo@;
                let mut stopped = false;
                while self.buffer.len() > 0 && !stopped
                    invariant
                        etb_pop(buf0) == (if stopped {
                            self.buffer@
                        } else {
                            etb_pop(self.buffer@)
                        }),
                        echo0 + bs_repeat(etb_echo(buf0)) =~= echo@ + (if stopped {
                            Seq::<u8>::empty()
                        } else {
                            bs_repeat(etb_echo(self.buffer@))
                        }),
                    decreases self.buffer@.len(), (if stopped { 0int } else { 1int }),
                {
                    let ghost pre = self.buffer@;
                    let c = self.buffer.pop();
                    proof {
                        assert(self.buffer@ =~= pre.drop_last());
                    }
                    match c {
                        Some(c) => {
                            if c == 32 {
                                stopped = true;
                            } else {
                                echo.push(8);
                                echo.push(32);
                                echo.push(8);
                                proof {
                                    assert(echo@ =~= (echo@.subrange(0, echo@.len() - 3))
                                        + backspace_echo());
                                }
                            }
                        },
                        None => {
                            stopped = true;
                        },
                    }
                }
                proof {
                    let t = terminal_run(etb_pop(buf0), false, bytes@.skip(i as int + 1));
                    assert(echo@ + t.2 =~= full.2);
                }
            } else if b == 27 {
                skip = true;
            } else {
                self.buffer.push(b);
                echo.push(b);
                proof {
                    let t = terminal_run(self.buffer@, false, bytes@.skip(i as int + 1));
                    assert(echo@ + t.2 =~= full.2);
                }
            }
            i = i + 1;
        }
        proof {
            assert(bytes@.skip(i as int).len() == 0);
            assert(echo@ + Seq::<u8>::empty() =~= echo@);
        }
        (None, echo)
    }
}

} // verus!
