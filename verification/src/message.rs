//! The message model: the semantic content kinds carried by the protocol and
//! their classification onto the control or shell channel.

use vstd::prelude::*;

verus! {

/// The semantic content of a protocol message, as far as routing cares:
/// each variant stands for one request or reply family of the messaging
/// protocol. `Other` covers every remaining family; classification must be
/// total over all of them.
#[derive(Clone, Copy, Debug, PartialEq, Eq, Structural)]
pub enum MessageContent {
    DebugRequest,
    InterruptRequest,
    ShutdownRequest,
    ExecuteRequest,
    KernelInfoRequest,
    CompleteRequest,
    InspectRequest,
    HistoryRequest,
    IsCompleteRequest,
    CommInfoRequest,
    CommOpen,
    CommMsg,
    CommClose,
    InputReply,
    Other,
}

/// One outbound protocol message: an identifier (the consumer's handle on
/// the message) and its semantic content.
#[derive(Clone, Copy, Debug, PartialEq, Eq, Structural)]
pub struct KernelMessage {
    pub id: u64,
    pub content: MessageContent,
}

/// The two request/reply channels a message can be dispatched on.
#[derive(Clone, Copy, Debug, PartialEq, Eq, Structural)]
pub enum Channel {
    Control,
    Shell,
}

/// Control-class content: debug, interrupt and shutdown requests, exactly.
pub open spec fn is_control_content(c: MessageContent) -> bool {
    c == MessageContent::DebugRequest || c == MessageContent::InterruptRequest || c
        == MessageContent::ShutdownRequest
}

/// The channel a message belongs on: control for control-class content,
/// shell for everything else. Total and mutually exclusive by construction.
pub open spec fn spec_channel_of(c: MessageContent) -> Channel {
    if is_control_content(c) {
        Channel::Control
    } else {
        Channel::Shell
    }
}

/// Classifies a message's content onto its channel. Every debug, interrupt
/// or shutdown request goes to the control channel; every other content
/// kind goes to the shell channel.
pub fn classify(c: MessageContent) -> (r: Channel)
    ensures
        r == spec_channel_of(c),
        r == Channel::Control <==> is_control_content(c),
{
    match c {
        MessageContent::DebugRequest => Channel::Control,
        MessageContent::InterruptRequest => Channel::Control,
        MessageContent::ShutdownRequest => Channel::Control,
        _ => Channel::Shell,
    }
}

/// Classification is total and mutually exclusive: every message content is
/// sent on exactly one of the two channels, and the control channel carries
/// precisely the debug, interrupt and shutdown requests.
pub proof fn lemma_classification_total(c: MessageContent)
    ensures
        spec_channel_of(c) == Channel::Control || spec_channel_of(c) == Channel::Shell,
        !(spec_channel_of(c) == Channel::Control && spec_channel_of(c) == Channel::Shell),
        spec_channel_of(c) == Channel::Control <==> is_control_content(c),
        spec_channel_of(c) == Channel::Shell <==> !is_control_content(c),
{
}

} // verus!
