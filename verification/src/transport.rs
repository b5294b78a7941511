//! The transport boundary between guest and host.
//!
//! The boundary only moves byte buffers and lengths, through four
//! primitives: announce the one-time module descriptor, send an outbound
//! envelope, query the byte length of the next pending inbound envelope, and
//! read a chunk of it into caller-provided storage. This module holds the
//! boundary as explicit state — the write-once announcement, the queue of
//! pending inbound envelopes (the front one possibly partially read), and
//! the outbound envelopes in sending order — so every call's effect is a
//! stated, checked transition rather than a host-side trap.

use vstd::prelude::*;

use crate::ExtensionError;

verus! {

/// The abstract state of the boundary.
///
/// `inbound` holds the unread bytes of every pending host-to-guest envelope,
/// front first; reading chunks consumes the front entry's bytes from its
/// start. `outbound` holds every guest-to-host envelope in sending order.
#[verifier::ext_equal]
pub struct ChannelView {
    /// Whether the one-time descriptor announcement has been made.
    pub announced: bool,
    /// The announced descriptor bytes, if any.
    pub info: Option<Seq<u8>>,
    /// The unread bytes of each pending inbound envelope, front first.
    pub inbound: Seq<Seq<u8>>,
    /// Every outbound envelope, in sending order.
    pub outbound: Seq<Seq<u8>>,
}

/// The guest's end of the boundary, holding its state explicitly.
pub struct HostChannel {
    announced: bool,
    info: Option<Vec<u8>>,
    inbound: Vec<Vec<u8>>,
    outbound: Vec<Vec<u8>>,
}

impl View for HostChannel {
    type V = ChannelView;

    closed spec fn view(&self) -> ChannelView {
        ChannelView {
            announced: self.announced,
            info: match self.info {
                Some(v) => Some(v@),
                None => None,
            },
            inbound: self.inbound.deep_view(),
            outbound: self.outbound.deep_view(),
        }
    }
}

impl HostChannel {
    /// Every pending envelope still has unread bytes: a fully read envelope
    /// leaves the queue at once, so a reported length of zero means nothing
    /// is pending.
    pub open spec fn wf(&self) -> bool {
        forall|i: int| 0 <= i < self@.inbound.len() ==> self@.inbound[i].len() > 0
    }

    /// Creates a fresh boundary: nothing announced, nothing pending, nothing
    /// sent.
    pub fn new() -> (c: HostChannel)
        ensures
            c.wf(),
            c@ == (ChannelView {
                announced: false,
                info: None,
                inbound: Seq::empty(),
                outbound: Seq::empty(),
            }),
    {
        let c = HostChannel {
            announced: false,
            info: None,
            inbound: Vec::new(),
            outbound: Vec::new(),
        };
        proof {
            assert(c@ =~~= ChannelView {
                announced: false,
                info: None,
                inbound: Seq::empty(),
                outbound: Seq::empty(),
            });
        }
        c
    }

    /// Whether the one-time announcement has been made.
    pub fn is_announced(&self) -> (r: bool)
        ensures
            r == self@.announced,
    {
        self.announced
    }

    /// The announced descriptor bytes, if any.
    pub fn info(&self) -> (r: &Option<Vec<u8>>)
        ensures
            match r {
                Some(v) => self@.info == Some(v@),
                None => self@.info is None,
            },
    {
        &self.info
    }

    /// Announces the module descriptor. This must be the very first
    /// cross-boundary call; a second announcement is a protocol violation
    /// and changes nothing.
    pub fn announce(&mut self, info: Vec<u8>) -> (r: Result<(), ExtensionError>)
        requires
            old(self).wf(),
        ensures
            final(self).wf(),
            old(self)@.announced ==> r == Result::<(), ExtensionError>::Err(
                ExtensionError::ProtocolViolation,
            ) && final(self)@ == old(self)@,
            !old(self)@.announced ==> r == Result::<(), ExtensionError>::Ok(()) && final(self)@ == (
            ChannelView {
                announced: true,
                info: Some(info@),
                ..old(self)@
            }),
    {
        if self.announced {
            return Err(ExtensionError::ProtocolViolation);
        }
        self.announced = true;
        self.info = Some(info);
        proof {
            assert(self@ =~~= (ChannelView { announced: true, info: self@.info, ..old(self)@ }));
        }
        Ok(())
    }

    /// Pushes one outbound envelope, fire and forget, preserving order.
    /// Sending before the announcement is a protocol violation and changes
    /// nothing.
    pub fn send(&mut self, data: Vec<u8>) -> (r: Result<(), ExtensionError>)
        requires
            old(self).wf(),
        ensures
            final(self).wf(),
            !old(self)@.announced ==> r == Result::<(), ExtensionError>::Err(
                ExtensionError::ProtocolViolation,
            ) && final(self)@ == old(self)@,
            old(self)@.announced ==> r == Result::<(), ExtensionError>::Ok(()) && final(self)@ == (
            ChannelView {
                outbound: old(self)@.outbound.push(data@),
                ..old(self)@
            }),
    {
        if !self.announced {
            return Err(ExtensionError::ProtocolViolation);
        }
        self.outbound.push(data);
        proof {
            assert(self@.inbound =~= old(self)@.inbound);
            assert(self@.outbound =~~= old(self)@.outbound.push(data@));
            assert(self@ =~~= (ChannelView {
                outbound: old(self)@.outbound.push(data@),
                ..old(self)@
            }));
        }
        Ok(())
    }

    /// Reports the exact byte length of the next available inbound envelope,
    /// or zero where nothing is pending.
    pub fn pending_length(&self) -> (n: usize)
        requires
            self@.announced,
        ensures
            self@.inbound.len() == 0 ==> n == 0,
            self@.inbound.len() > 0 ==> n == self@.inbound[0].len(),
    {
        if self.inbound.len() == 0 {
            0
        } else {
            self.inbound[0].len()
        }
    }

    /// Copies up to `max` bytes of the pending inbound envelope out of the
    /// boundary and returns them. Repeated calls drain the same envelope
    /// from its start until all of it has been read, after which the next
    /// envelope (if any) becomes pending.
    pub fn read_chunk(&mut self, max: usize) -> (chunk: Vec<u8>)
        requires
            old(self).wf(),
            old(self)@.announced,
        ensures
            final(self).wf(),
            old(self)@.inbound.len() == 0 ==> chunk@ == Seq::<u8>::empty() && final(self)@ == old(
                self,
            )@,
            old(self)@.inbound.len() > 0 ==> {
                let msg = old(self)@.inbound[0];
                let take = if (max as int) < msg.len() {
                    max as int
                } else {
                    msg.len() as int
                };
                &&& chunk@ == msg.take(take)
                &&& final(self)@ == (ChannelView {
                    inbound: if take == msg.len() {
                        old(self)@.inbound.drop_first()
                    } else {
                        old(self)@.inbound.update(0, msg.skip(take))
                    },
                    ..old(self)@
                })
            },
    {
        if self.inbound.len() == 0 {
            let chunk: Vec<u8> = Vec::new();
            proof {
                assert(self@ =~= old(self)@);
            }
            return chunk;
        }
        let mut first = self.inbound.remove(0);
        if max < first.len() {
            let tail = first.split_off(max);
            self.inbound.insert(0, tail);
            proof {
                let msg = old(self)@.inbound[0];
                assert(first@ =~= msg.take(max as int));
                assert(self@.inbound =~~= old(self)@.inbound.update(0, msg.skip(max as int)));
                assert(self@ =~~= (ChannelView {
                    inbound: old(self)@.inbound.update(0, msg.skip(max as int)),
                    ..old(self)@
                }));
            }
            first
        } else {
            proof {
                let msg = old(self)@.inbound[0];
                assert(first@ =~= msg.take(msg.len() as int));
                assert(self@.inbound =~~= old(self)@.inbound.drop_first());
                assert(self@ =~~= (ChannelView {
                    inbound: old(self)@.inbound.drop_first(),
                    ..old(self)@
                }));
            }
            first
        }
    }

    /// Queues one inbound envelope on the host's side, to become pending for
    /// the guest after everything queued before it. The descriptor must have
    /// been announced first, and an envelope is never empty.
    pub fn host_deliver(&mut self, msg: Vec<u8>)
        requires
            old(self).wf(),
            old(self)@.announced,
            msg@.len() > 0,
        ensures
            final(self).wf(),
            final(self)@ == (ChannelView { inbound: old(self)@.inbound.push(msg@), ..old(self)@ }),
    {
        self.inbound.push(msg);
        proof {
            assert(self@.inbound =~~= old(self)@.inbound.push(msg@));
            assert(self@ =~~= (ChannelView {
                inbound: old(self)@.inbound.push(msg@),
                ..old(self)@
            }));
        }
    }

    /// Takes every outbound envelope off the host's side, in sending order,
    /// leaving the outbound queue empty.
    pub fn host_take_outbound(&mut self) -> (r: Vec<Vec<u8>>)
        requires
            old(self).wf(),
        ensures
            final(self).wf(),
            r.deep_view() == old(self)@.outbound,
            final(self)@ == (ChannelView { outbound: Seq::empty(), ..old(self)@ }),
    {
        let mut taken: Vec<Vec<u8>> = Vec::new();
        core::mem::swap(&mut taken, &mut self.outbound);
        proof {
            assert(self@ =~~= (ChannelView { outbound: Seq::<Seq<u8>>::empty(), ..old(self)@ }));
        }
        taken
    }
}

} // verus!
