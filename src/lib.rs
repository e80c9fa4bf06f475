//! Safe call-ordering layer for an immediate-mode GUI library reached through
//! its C interface: the context lifecycle, the frame protocol and the nesting
//! discipline of push/pop scopes, checked before any native call is made.
use vstd::prelude::*;

pub mod scope;
pub mod session;

verus! {

/// A native context, known here by its address. The context itself belongs to
/// the native library; this is a non-owning handle to it.
#[derive(Clone, Copy, Debug, PartialEq, Eq, Structural)]
pub enum ImGuiContext {
    At(usize),
}

impl ImGuiContext {
    pub open spec fn spec_addr(self) -> usize {
        match self {
            ImGuiContext::At(a) => a,
        }
    }

    /// The handle for the context at `addr`; `None` for a null address, which
    /// the native library returns when it made no context.
    pub fn from_addr(addr: usize) -> (r: Option<ImGuiContext>)
        ensures
            r is Some <==> addr != 0,
            r matches Some(c) ==> c.spec_addr() == addr,
    {
        if addr == 0 {
            None
        } else {
            Some(ImGuiContext::At(addr))
        }
    }

    pub fn addr(&self) -> (r: usize)
        ensures
            r == self.spec_addr(),
    {
        match self {
            ImGuiContext::At(a) => *a,
        }
    }
}

} // verus!
