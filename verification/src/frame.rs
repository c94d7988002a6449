//! The unit on the tunnel wire: one frame between relay and agent,
//! carrying a session's id, a slice of its byte stream, or one of the two
//! control marks (`is_init`, `is_eof`).

use vstd::prelude::*;

verus! {

/// One tunnel frame. Exactly one frame per stream carries `is_init`, as
/// the first; `is_eof` ends a session; data-bearing frames carry neither
/// mark.
#[derive(Clone)]
pub struct TunnelFrame {
    pub node_id: String,
    pub request_id: String,
    pub data: Vec<u8>,
    pub is_init: bool,
    pub is_eof: bool,
}

impl TunnelFrame {
    /// The wire invariant: the two marks never coincide, and a frame with
    /// data carries neither.
    pub open spec fn wf(self) -> bool {
        &&& !(self.is_init && self.is_eof)
        &&& self.data@.len() > 0 ==> !self.is_init && !self.is_eof
    }

    /// The one initial frame of a tunnel: empty request id, no data.
    pub fn init_frame(node_id: &String) -> (r: TunnelFrame)
        ensures
            r.wf(),
            r.is_init,
            !r.is_eof,
            r.node_id@ == node_id@,
            r.request_id@ == Seq::<char>::empty(),
            r.data@ == Seq::<u8>::empty(),
    {
        TunnelFrame {
            node_id: node_id.clone(),
            request_id: String::new(),
            data: Vec::new(),
            is_init: true,
            is_eof: false,
        }
    }

    /// An outbound data frame: one read from the local socket, verbatim.
    pub fn data_frame(node_id: &String, request_id: &String, data: Vec<u8>) -> (r: TunnelFrame)
        ensures
            r.wf(),
            !r.is_init,
            !r.is_eof,
            r.node_id@ == node_id@,
            r.request_id@ == request_id@,
            r.data@ == data@,
    {
        TunnelFrame {
            node_id: node_id.clone(),
            request_id: request_id.clone(),
            data,
            is_init: false,
            is_eof: false,
        }
    }

    /// The end-of-stream frame for one session: no data.
    pub fn eof_frame(node_id: &String, request_id: &String) -> (r: TunnelFrame)
        ensures
            r.wf(),
            !r.is_init,
            r.is_eof,
            r.node_id@ == node_id@,
            r.request_id@ == request_id@,
            r.data@ == Seq::<u8>::empty(),
    {
        TunnelFrame {
            node_id: node_id.clone(),
            request_id: request_id.clone(),
            data: Vec::new(),
            is_init: false,
            is_eof: true,
        }
    }
}

} // verus!
