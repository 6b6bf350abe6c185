//! What the netlink socket of IPVS computes: the sequence numbers of its
//! requests and what it makes of the frames that answer them.

use crate::error::{Error, ErrorView};
use crate::ipvs::messages::IPVSMessage;
use crate::text::{signed_decimal, signed_decimal_spec};
use vstd::prelude::*;
use vstd::string::StringExecFns;

verus! {

/// Flag of a request.
pub const NLM_F_REQUEST: u16 = 0x1;

/// Flags that ask for all entries: root and match.
pub const NLM_F_DUMP: u16 = 0x300;

/// Identifier of the generic netlink controller, which resolves families.
pub const GENL_ID_CTRL: u16 = 16;

/// One frame of an answer.
pub enum ReplyFrame {
    /// A message of the family.
    Message(IPVSMessage),
    /// An error frame with its code; code 0 acknowledges the request.
    Error(i32),
    /// The end of a multi-part answer.
    Done,
    /// A frame of any other type.
    Unexpected,
}

/// The error for a code that the kernel returned.
pub open spec fn kernel_error_spec(code: i32) -> ErrorView {
    ErrorView::IPVS("IPVS command failed: error code "@ + signed_decimal_spec(code as int))
}

/// The error for a frame of a type that no answer should have.
pub open spec fn unexpected_spec() -> ErrorView {
    ErrorView::Netlink("Unexpected netlink response type"@)
}

/// The error for a multi-part answer that stops before its end.
pub open spec fn incomplete_spec() -> ErrorView {
    ErrorView::Netlink("Multi-part netlink response ended before DONE"@)
}

/// The error for a code that the kernel returned, the code kept as it is.
pub fn kernel_error(code: i32) -> (e: Error)
    ensures
        e@ == kernel_error_spec(code),
{
    let mut text: String = "IPVS command failed: error code ".to_owned();
    text.append(signed_decimal(code).as_str());
    Error::IPVS(text)
}

/// What the single frame that answers a request means: a message of the
/// family is the answer; an error frame with code 0 acknowledges the request
/// without an answer; an error frame with another code is the error of the
/// kernel; any other frame is a malformed answer.
pub fn interpret_reply(frame: ReplyFrame) -> (r: Result<Option<IPVSMessage>, Error>)
    ensures
        match frame {
            ReplyFrame::Message(m) => r == Ok::<Option<IPVSMessage>, Error>(Some(m)),
            ReplyFrame::Error(code) => if code == 0 {
                r == Ok::<Option<IPVSMessage>, Error>(None)
            } else {
                r is Err && r->Err_0@ == kernel_error_spec(code)
            },
            _ => r is Err && r->Err_0@ == unexpected_spec(),
        },
{
    match frame {
        ReplyFrame::Message(m) => Ok(Some(m)),
        ReplyFrame::Error(code) => {
            if code == 0 {
                Ok(None)
            } else {
                Err(kernel_error(code))
            }
        },
        _ => Err(Error::netlink("Unexpected netlink response type")),
    }
}

/// Where a multi-part answer ends, and how: the index of the first frame
/// that is no message.
pub open spec fn first_break(frames: Seq<ReplyFrame>) -> int
    decreases frames.len(),
{
    if frames.len() == 0 || !(frames.first() is Message) {
        0
    } else {
        1 + first_break(frames.drop_first())
    }
}

/// The messages at the start of a list of frames, in order.
pub open spec fn leading_messages(frames: Seq<ReplyFrame>, k: int) -> Seq<IPVSMessage> {
    Seq::new(k as nat, |i: int| frames[i]->Message_0)
}

/// Reassembles a multi-part answer: the messages up to the frame that marks
/// the end. An error frame in their midst is the error of the kernel (an
/// acknowledgement there is malformed, as is any other frame), and so is an
/// answer that stops before its end.
pub fn collect_dump(frames: Vec<ReplyFrame>) -> (r: Result<Vec<IPVSMessage>, Error>)
    ensures
        ({
            let k = first_break(frames@);
            if k == frames@.len() {
                r is Err && r->Err_0@ == incomplete_spec()
            } else {
                match frames@[k] {
                    ReplyFrame::Done => r is Ok && r->Ok_0@ == leading_messages(frames@, k),
                    ReplyFrame::Error(code) => r is Err && r->Err_0@ == if code == 0 {
                        unexpected_spec()
                    } else {
                        kernel_error_spec(code)
                    },
                    _ => r is Err && r->Err_0@ == unexpected_spec(),
                }
            }
        }),
{
    let ghost all = frames@;
    let mut queue = frames;
    let mut messages: Vec<IPVSMessage> = Vec::new();
    let n: usize = queue.len();
    let mut taken: usize = 0;
    assert(all.skip(0) =~= all);
    while taken < n
        invariant
            taken <= n,
            n == all.len(),
            all == frames@,
            queue@ == all.skip(taken as int),
            forall|i: int| 0 <= i < taken ==> all[i] is Message,
            messages@ == leading_messages(all, taken as int),
            first_break(all) == taken + first_break(all.skip(taken as int)),
        decreases n - taken,
    {
        let ghost rest = all.skip(taken as int);
        assert(rest.first() == all[taken as int]);
        assert(rest.drop_first() =~= all.skip(taken + 1));
        let frame = queue.remove(0);
        assert(queue@ =~= all.skip(taken + 1));
        assert(frame == all[taken as int]);
        assert(!(frame is Message) ==> first_break(rest) == 0);
        assert(frame is Message ==> first_break(rest) == 1 + first_break(rest.drop_first()));
        match frame {
            ReplyFrame::Message(m) => {
                messages.push(m);
                assert(messages@ =~= leading_messages(all, taken + 1));
                taken += 1;
            },
            ReplyFrame::Done => {
                return Ok(messages);
            },
            ReplyFrame::Error(code) => {
                if code == 0 {
                    return Err(Error::netlink("Unexpected netlink response type"));
                }
                return Err(kernel_error(code));
            },
            ReplyFrame::Unexpected => {
                return Err(Error::netlink("Unexpected netlink response type"));
            },
        }
    }
    assert(all.skip(taken as int) =~= Seq::<ReplyFrame>::empty());
    Err(Error::netlink("Multi-part netlink response ended before DONE"))
}

/// The counter of the sequence numbers of requests.
pub struct SequenceCounter {
    value: u32,
}

impl SequenceCounter {
    /// The number that was handed out last; 0 before the first.
    pub closed spec fn last(&self) -> u32 {
        self.value
    }

    /// A counter that has handed out no number yet.
    pub fn new() -> (c: Self)
        ensures
            c.last() == 0,
    {
        SequenceCounter { value: 0 }
    }

    /// The next sequence number: one more than the last, and 0 after the
    /// largest.
    pub fn next_sequence(&mut self) -> (n: u32)
        ensures
            n == final(self).last(),
            n == if old(self).last() == u32::MAX {
                0
            } else {
                (old(self).last() + 1) as u32
            },
    {
        self.value = if self.value == u32::MAX {
            0
        } else {
            self.value + 1
        };
        self.value
    }
}

} // verus!
