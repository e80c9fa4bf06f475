//! One thread's view of the native library: which contexts are alive, which
//! one is current, whether the data layout was checked, and the frame protocol
//! with its nesting of scopes. Every native call is first put to the matching
//! method here, and is made only where that method returns `Ok`.
use vstd::prelude::*;
use crate::ImGuiContext;
use crate::scope::{
    ScopeError, ScopeKind, ScopeStack, pop_error, pop_many_error, pop_many_spec, pop_spec,
};

verus! {

/// What is known of the check that this crate's data layout matches the
/// linked library's.
#[derive(Clone, Copy, Debug, PartialEq, Eq, Structural)]
pub enum Layout {
    Unchecked,
    Verified,
    Mismatch,
}

/// Where the current context stands in the frame protocol.
#[derive(Clone, Copy, Debug, PartialEq, Eq, Structural)]
pub enum Phase {
    Idle,
    FrameOpen,
}

/// Why a call was refused before it reached the native library.
#[derive(Clone, Copy, Debug, PartialEq, Eq, Structural)]
pub enum GuiError {
    /// The context handed in is already alive.
    ContextAlreadyLive,
    /// The context handed in is not alive.
    UnknownContext,
    /// The call needs a current context and there is none.
    NoCurrentContext,
    /// The layout check has not been made yet.
    LayoutUnchecked,
    /// The layout check failed; this is never recovered from.
    LayoutMismatch,
    /// A frame is already open.
    FrameAlreadyOpen,
    /// The call needs an open frame.
    FrameNotOpen,
    /// The current context cannot be left or destroyed while its frame is open.
    FrameStillOpen,
    /// The frame cannot end while scopes are open.
    UnclosedScopes,
    /// A scope could not be closed.
    Scope(ScopeError),
    /// No frame has been rendered on the current context since the last one began.
    NoDrawData,
}

/// The state of a `Gui`, as the contracts speak of it.
pub struct GuiModel {
    pub live: Set<ImGuiContext>,
    pub current: Option<ImGuiContext>,
    pub layout: Layout,
    pub phase: Phase,
    pub scopes: Seq<ScopeKind>,
    pub draw_data: bool,
}

/// What holds of every state that the methods of `Gui` reach.
pub open spec fn model_inv(m: GuiModel) -> bool {
    &&& m.live.finite()
    &&& (m.current matches Some(c) ==> m.live.contains(c))
    &&& (m.phase == Phase::FrameOpen ==> m.current is Some)
    &&& (m.phase == Phase::Idle ==> m.scopes.len() == 0)
    &&& (m.draw_data ==> m.current is Some)
    &&& (m.phase == Phase::FrameOpen ==> !m.draw_data)
}

/// A step's outcome: the state it leads to, or the error that refused it.
pub open spec fn outcome(r: Result<(), GuiError>, after: GuiModel) -> Result<GuiModel, GuiError> {
    match r {
        Ok(_) => Ok(after),
        Err(e) => Err(e),
    }
}

pub open spec fn create_step(m: GuiModel, c: ImGuiContext) -> Result<GuiModel, GuiError> {
    if m.live.contains(c) {
        Err(GuiError::ContextAlreadyLive)
    } else {
        Ok(GuiModel {
            live: m.live.insert(c),
            current: if m.current is None { Some(c) } else { m.current },
            ..m
        })
    }
}

pub open spec fn destroy_step(m: GuiModel, c: ImGuiContext) -> Result<GuiModel, GuiError> {
    if !m.live.contains(c) {
        Err(GuiError::UnknownContext)
    } else if m.current == Some(c) && m.phase == Phase::FrameOpen {
        Err(GuiError::FrameStillOpen)
    } else if m.current == Some(c) {
        Ok(GuiModel { live: m.live.remove(c), current: None, draw_data: false, ..m })
    } else {
        Ok(GuiModel { live: m.live.remove(c), ..m })
    }
}

pub open spec fn set_current_step(m: GuiModel, c: Option<ImGuiContext>) -> Result<
    GuiModel,
    GuiError,
> {
    if c matches Some(x) && !m.live.contains(x) {
        Err(GuiError::UnknownContext)
    } else if c == m.current {
        Ok(m)
    } else if m.phase == Phase::FrameOpen {
        Err(GuiError::FrameStillOpen)
    } else {
        Ok(GuiModel { current: c, draw_data: false, ..m })
    }
}

pub open spec fn verify_layout_step(m: GuiModel, layout_ok: bool) -> Result<GuiModel, GuiError> {
    if !layout_ok || m.layout == Layout::Mismatch {
        Err(GuiError::LayoutMismatch)
    } else {
        Ok(GuiModel { layout: Layout::Verified, ..m })
    }
}

pub open spec fn new_frame_step(m: GuiModel) -> Result<GuiModel, GuiError> {
    if m.current is None {
        Err(GuiError::NoCurrentContext)
    } else if m.layout == Layout::Unchecked {
        Err(GuiError::LayoutUnchecked)
    } else if m.layout == Layout::Mismatch {
        Err(GuiError::LayoutMismatch)
    } else if m.phase == Phase::FrameOpen {
        Err(GuiError::FrameAlreadyOpen)
    } else {
        Ok(GuiModel { phase: Phase::FrameOpen, draw_data: false, ..m })
    }
}

pub open spec fn open_scope_step(m: GuiModel, k: ScopeKind) -> Result<GuiModel, GuiError> {
    if m.phase != Phase::FrameOpen {
        Err(GuiError::FrameNotOpen)
    } else {
        Ok(GuiModel { scopes: m.scopes.push(k), ..m })
    }
}

pub open spec fn close_scope_step(m: GuiModel, k: ScopeKind) -> Result<GuiModel, GuiError> {
    if m.phase != Phase::FrameOpen {
        Err(GuiError::FrameNotOpen)
    } else {
        match pop_spec(m.scopes, k) {
            Some(s) => Ok(GuiModel { scopes: s, ..m }),
            None => Err(GuiError::Scope(pop_error(m.scopes, k).unwrap())),
        }
    }
}

pub open spec fn close_scopes_step(m: GuiModel, k: ScopeKind, n: nat) -> Result<
    GuiModel,
    GuiError,
> {
    if m.phase != Phase::FrameOpen {
        Err(GuiError::FrameNotOpen)
    } else {
        match pop_many_spec(m.scopes, k, n) {
            Some(s) => Ok(GuiModel { scopes: s, ..m }),
            None => Err(GuiError::Scope(pop_many_error(m.scopes, k, n).unwrap())),
        }
    }
}

/// Ends the frame, and with `render` produces its draw data.
pub open spec fn end_frame_step(m: GuiModel, render: bool) -> Result<GuiModel, GuiError> {
    if m.phase != Phase::FrameOpen {
        Err(GuiError::FrameNotOpen)
    } else if m.scopes.len() != 0 {
        Err(GuiError::UnclosedScopes)
    } else {
        Ok(GuiModel { phase: Phase::Idle, draw_data: render, ..m })
    }
}

/// Opens the scopes `ks` in order; stops at the first refusal.
pub open spec fn open_all(m: GuiModel, ks: Seq<ScopeKind>) -> Result<GuiModel, GuiError>
    decreases ks.len(),
{
    if ks.len() == 0 {
        Ok(m)
    } else {
        match open_scope_step(m, ks[0]) {
            Ok(n) => open_all(n, ks.drop_first()),
            Err(e) => Err(e),
        }
    }
}

/// Closes a scope of each kind of `ks` in order; stops at the first refusal.
pub open spec fn close_all(m: GuiModel, ks: Seq<ScopeKind>) -> Result<GuiModel, GuiError>
    decreases ks.len(),
{
    if ks.len() == 0 {
        Ok(m)
    } else {
        match close_scope_step(m, ks[0]) {
            Ok(n) => close_all(n, ks.drop_first()),
            Err(e) => Err(e),
        }
    }
}

proof fn lemma_open_all(m: GuiModel, ks: Seq<ScopeKind>)
    requires
        m.phase == Phase::FrameOpen,
    ensures
        open_all(m, ks) == Ok::<GuiModel, GuiError>(GuiModel { scopes: m.scopes + ks, ..m }),
    decreases ks.len(),
{
    if ks.len() > 0 {
        let n = GuiModel { scopes: m.scopes.push(ks[0]), ..m };
        lemma_open_all(n, ks.drop_first());
        assert(n.scopes + ks.drop_first() =~= m.scopes + ks);
    } else {
        assert(m.scopes + ks =~= m.scopes);
    }
}

proof fn lemma_close_all_reverse(m: GuiModel, ks: Seq<ScopeKind>)
    requires
        m.phase == Phase::FrameOpen,
    ensures
        close_all(GuiModel { scopes: m.scopes + ks, ..m }, ks.reverse()) == Ok::<
            GuiModel,
            GuiError,
        >(m),
    decreases ks.len(),
{
    let t = GuiModel { scopes: m.scopes + ks, ..m };
    if ks.len() > 0 {
        let r = ks.reverse();
        let front = ks.drop_last();
        assert(t.scopes.last() == ks.last());
        assert(r[0] == ks.last());
        assert(t.scopes.drop_last() =~= m.scopes + front);
        assert(r.drop_first() =~= front.reverse());
        lemma_close_all_reverse(m, front);
    } else {
        assert(m.scopes + ks =~= m.scopes);
        assert(t == m);
    }
}

/// Within a frame, opening any scopes and then closing them in reverse order
/// succeeds at every step and brings the state back to what it was, the
/// depth of the scope stack included.
pub proof fn lemma_scopes_balance(m: GuiModel, ks: Seq<ScopeKind>)
    requires
        m.phase == Phase::FrameOpen,
    ensures
        open_all(m, ks) matches Ok(n) && close_all(n, ks.reverse()) == Ok::<GuiModel, GuiError>(m),
{
    lemma_open_all(m, ks);
    lemma_close_all_reverse(m, ks);
}

/// A close with no matching open is refused, and so never reaches the native
/// library: inside a frame it fails as an empty scope stack, outside one as no
/// frame.
pub proof fn lemma_unmatched_close_refused(m: GuiModel, k: ScopeKind)
    requires
        m.scopes.len() == 0,
    ensures
        close_scope_step(m, k) == Err::<GuiModel, GuiError>(
            if m.phase == Phase::FrameOpen {
                GuiError::Scope(ScopeError::Empty)
            } else {
                GuiError::FrameNotOpen
            },
        ),
{
}

/// One frame holding one window: it begins, the window opens and closes, and
/// the frame renders.
pub open spec fn window_frame(m: GuiModel) -> Result<GuiModel, GuiError> {
    match new_frame_step(m) {
        Err(e) => Err(e),
        Ok(a) => match open_scope_step(a, ScopeKind::Window) {
            Err(e) => Err(e),
            Ok(b) => match close_scope_step(b, ScopeKind::Window) {
                Err(e) => Err(e),
                Ok(d) => end_frame_step(d, true),
            },
        },
    }
}

/// On a current context whose layout check passed, a frame with one window
/// goes through and leaves draw data to fetch; destroying the context
/// afterwards leaves no context current.
pub proof fn lemma_frame_then_destroy(m: GuiModel, c: ImGuiContext)
    requires
        model_inv(m),
        m.current == Some(c),
        m.layout == Layout::Verified,
        m.phase == Phase::Idle,
    ensures
        window_frame(m) == Ok::<GuiModel, GuiError>(GuiModel { draw_data: true, ..m }),
        destroy_step(GuiModel { draw_data: true, ..m }, c) == Ok::<GuiModel, GuiError>(
            GuiModel { live: m.live.remove(c), current: None, draw_data: false, ..m },
        ),
{
    let a = GuiModel { phase: Phase::FrameOpen, draw_data: false, ..m };
    assert(a.scopes.push(ScopeKind::Window).drop_last() =~= a.scopes);
}

/// A failed layout check is final: every later check is refused, and no frame
/// can begin, whatever the native library answers afterwards.
pub proof fn lemma_mismatch_is_final(m: GuiModel, layout_ok: bool)
    requires
        m.layout == Layout::Mismatch,
    ensures
        verify_layout_step(m, layout_ok) == Err::<GuiModel, GuiError>(GuiError::LayoutMismatch),
        new_frame_step(m) is Err,
{
}

/// Tracks the native library's state for one thread of execution.
pub struct Gui {
    live: Vec<ImGuiContext>,
    current: Option<ImGuiContext>,
    layout: Layout,
    phase: Phase,
    scopes: ScopeStack,
    draw_data: bool,
}

impl View for Gui {
    type V = GuiModel;

    closed spec fn view(&self) -> GuiModel {
        GuiModel {
            live: self.live@.to_set(),
            current: self.current,
            layout: self.layout,
            phase: self.phase,
            scopes: self.scopes@,
            draw_data: self.draw_data,
        }
    }
}

impl Gui {
    pub closed spec fn wf(&self) -> bool {
        &&& self.live@.no_duplicates()
        &&& model_inv(self@)
    }

    /// No context alive, none current, layout unchecked, no frame open.
    pub fn new() -> (r: Gui)
        ensures
            r.wf(),
            r@.live == Set::<ImGuiContext>::empty(),
            r@.current is None,
            r@.layout == Layout::Unchecked,
            r@.phase == Phase::Idle,
            r@.scopes.len() == 0,
            !r@.draw_data,
    {
        let r = Gui {
            live: Vec::new(),
            current: None,
            layout: Layout::Unchecked,
            phase: Phase::Idle,
            scopes: ScopeStack::new(),
            draw_data: false,
        };
        assert(r@.live =~= Set::<ImGuiContext>::empty());
        r
    }

    /// The current context, if any.
    pub fn current(&self) -> (r: Option<ImGuiContext>)
        ensures
            r == self@.current,
    {
        self.current
    }

    pub fn phase(&self) -> (r: Phase)
        ensures
            r == self@.phase,
    {
        self.phase
    }

    pub fn layout(&self) -> (r: Layout)
        ensures
            r == self@.layout,
    {
        self.layout
    }

    /// How many scopes are open in the current frame.
    pub fn depth(&self) -> (r: usize)
        ensures
            r == self@.scopes.len(),
    {
        self.scopes.depth()
    }

    fn position(&self, c: ImGuiContext) -> (r: Option<usize>)
        ensures
            r is None <==> !self.live@.contains(c),
            r matches Some(i) ==> i < self.live@.len() && self.live@[i as int] == c,
    {
        let mut i: usize = 0;
        while i < self.live.len()
            invariant
                i <= self.live@.len(),
                forall|j: int| 0 <= j < i ==> self.live@[j] != c,
            decreases self.live@.len() - i,
        {
            if self.live[i] == c {
                return Some(i);
            }
            i = i + 1;
        }
        None
    }

    /// Records a context that the native library has just made. It becomes
    /// current where none was, as the native library does.
    pub fn create_context(&mut self, c: ImGuiContext) -> (r: Result<(), GuiError>)
        requires
            old(self).wf(),
        ensures
            final(self).wf(),
            outcome(r, final(self)@) == create_step(old(self)@, c),
            r is Err ==> final(self)@ == old(self)@,
    {
        if self.position(c).is_some() {
            return Err(GuiError::ContextAlreadyLive);
        }
        let ghost before = self.live@;
        self.live.push(c);
        assert(self.live@.to_set() =~= before.to_set().insert(c)) by {
            assert(self.live@.last() == c);
            assert forall|x: ImGuiContext| before.contains(x) implies self.live@.contains(x) by {
                let j = choose|j: int| 0 <= j < before.len() && before[j] == x;
                assert(self.live@[j] == x);
            }
        }
        if self.current.is_none() {
            self.current = Some(c);
        }
        Ok(())
    }

    /// Records that context `c` is being destroyed. The current context cannot
    /// be destroyed while its frame is open; destroying it leaves no context
    /// current and drops its draw data.
    pub fn destroy_context(&mut self, c: ImGuiContext) -> (r: Result<(), GuiError>)
        requires
            old(self).wf(),
        ensures
            final(self).wf(),
            outcome(r, final(self)@) == destroy_step(old(self)@, c),
            r is Err ==> final(self)@ == old(self)@,
    {
        let pos = self.position(c);
        let i = match pos {
            None => {
                return Err(GuiError::UnknownContext);
            },
            Some(i) => i,
        };
        let is_current = match self.current {
            Some(x) => x == c,
            None => false,
        };
        if is_current && self.phase == Phase::FrameOpen {
            return Err(GuiError::FrameStillOpen);
        }
        let ghost before = self.live@;
        self.live.remove(i);
        assert(self.live@.to_set() =~= before.to_set().remove(c)) by {
            assert forall|x: ImGuiContext|
                #[trigger] before.contains(x) && x != c implies self.live@.contains(x) by {
                let j = choose|j: int| 0 <= j < before.len() && before[j] == x;
                if j < i {
                    assert(self.live@[j] == x);
                } else {
                    assert(self.live@[j - 1] == x);
                }
            }
            assert forall|x: ImGuiContext|
                #[trigger] self.live@.contains(x) implies before.contains(x) && x != c by {
                let j = choose|j: int| 0 <= j < self.live@.len() && self.live@[j] == x;
                if j < i {
                    assert(before[j] == x);
                } else {
                    assert(before[j + 1] == x);
                }
            }
        }
        if is_current {
            self.current = None;
            self.draw_data = false;
        }
        Ok(())
    }

    /// Makes `c` the current context, or leaves none current for `None`. The
    /// current context cannot change while its frame is open; a change drops
    /// the draw data of the one left.
    pub fn set_current(&mut self, c: Option<ImGuiContext>) -> (r: Result<(), GuiError>)
        requires
            old(self).wf(),
        ensures
            final(self).wf(),
            outcome(r, final(self)@) == set_current_step(old(self)@, c),
            r is Err ==> final(self)@ == old(self)@,
    {
        if let Some(x) = c {
            if self.position(x).is_none() {
                return Err(GuiError::UnknownContext);
            }
        }
        if c == self.current {
            return Ok(());
        }
        if self.phase == Phase::FrameOpen {
            return Err(GuiError::FrameStillOpen);
        }
        self.current = c;
        self.draw_data = false;
        Ok(())
    }

    /// Takes the answer of the native layout check (`layout_ok`). A mismatch is
    /// final: no frame can begin afterwards, whatever later checks answer.
    pub fn verify_layout(&mut self, layout_ok: bool) -> (r: Result<(), GuiError>)
        requires
            old(self).wf(),
        ensures
            final(self).wf(),
            outcome(r, final(self)@) == verify_layout_step(old(self)@, layout_ok),
            r is Err ==> final(self)@ == (GuiModel { layout: Layout::Mismatch, ..old(self)@ }),
    {
        if !layout_ok || self.layout == Layout::Mismatch {
            self.layout = Layout::Mismatch;
            return Err(GuiError::LayoutMismatch);
        }
        self.layout = Layout::Verified;
        Ok(())
    }

    /// Begins a frame on the current context, once the layout check passed.
    pub fn new_frame(&mut self) -> (r: Result<(), GuiError>)
        requires
            old(self).wf(),
        ensures
            final(self).wf(),
            outcome(r, final(self)@) == new_frame_step(old(self)@),
            r is Err ==> final(self)@ == old(self)@,
    {
        if self.current.is_none() {
            return Err(GuiError::NoCurrentContext);
        }
        match self.layout {
            Layout::Unchecked => {
                return Err(GuiError::LayoutUnchecked);
            },
            Layout::Mismatch => {
                return Err(GuiError::LayoutMismatch);
            },
            Layout::Verified => {},
        }
        if self.phase == Phase::FrameOpen {
            return Err(GuiError::FrameAlreadyOpen);
        }
        self.phase = Phase::FrameOpen;
        self.draw_data = false;
        Ok(())
    }

    /// Whether a widget or window call may be made now: only inside a frame.
    pub fn require_frame(&self) -> (r: Result<(), GuiError>)
        ensures
            r is Ok <==> self@.phase == Phase::FrameOpen,
            r matches Err(e) ==> e == GuiError::FrameNotOpen,
    {
        if self.phase == Phase::FrameOpen {
            Ok(())
        } else {
            Err(GuiError::FrameNotOpen)
        }
    }

    /// Opens a scope of kind `k` in the current frame.
    pub fn open_scope(&mut self, k: ScopeKind) -> (r: Result<(), GuiError>)
        requires
            old(self).wf(),
        ensures
            final(self).wf(),
            outcome(r, final(self)@) == open_scope_step(old(self)@, k),
            r is Err ==> final(self)@ == old(self)@,
    {
        if self.phase != Phase::FrameOpen {
            return Err(GuiError::FrameNotOpen);
        }
        self.scopes.push(k);
        Ok(())
    }

    /// Closes the innermost scope of the current frame, which must be of kind `k`.
    pub fn close_scope(&mut self, k: ScopeKind) -> (r: Result<(), GuiError>)
        requires
            old(self).wf(),
        ensures
            final(self).wf(),
            outcome(r, final(self)@) == close_scope_step(old(self)@, k),
            r is Err ==> final(self)@ == old(self)@,
    {
        if self.phase != Phase::FrameOpen {
            return Err(GuiError::FrameNotOpen);
        }
        match self.scopes.pop(k) {
            Ok(()) => Ok(()),
            Err(e) => Err(GuiError::Scope(e)),
        }
    }

    /// Closes the `n` innermost scopes of the current frame, all of which must
    /// be of kind `k`.
    pub fn close_scopes(&mut self, k: ScopeKind, n: usize) -> (r: Result<(), GuiError>)
        requires
            old(self).wf(),
        ensures
            final(self).wf(),
            outcome(r, final(self)@) == close_scopes_step(old(self)@, k, n as nat),
            r is Err ==> final(self)@ == old(self)@,
    {
        if self.phase != Phase::FrameOpen {
            return Err(GuiError::FrameNotOpen);
        }
        match self.scopes.pop_many(k, n) {
            Ok(()) => Ok(()),
            Err(e) => Err(GuiError::Scope(e)),
        }
    }

    /// Ends the current frame without rendering it; every scope must be closed.
    pub fn end_frame(&mut self) -> (r: Result<(), GuiError>)
        requires
            old(self).wf(),
        ensures
            final(self).wf(),
            outcome(r, final(self)@) == end_frame_step(old(self)@, false),
            r is Err ==> final(self)@ == old(self)@,
    {
        self.finish_frame(false)
    }

    /// Ends the current frame and renders it, which makes its draw data
    /// available; every scope must be closed.
    pub fn render(&mut self) -> (r: Result<(), GuiError>)
        requires
            old(self).wf(),
        ensures
            final(self).wf(),
            outcome(r, final(self)@) == end_frame_step(old(self)@, true),
            r is Err ==> final(self)@ == old(self)@,
    {
        self.finish_frame(true)
    }

    fn finish_frame(&mut self, render: bool) -> (r: Result<(), GuiError>)
        requires
            old(self).wf(),
        ensures
            final(self).wf(),
            outcome(r, final(self)@) == end_frame_step(old(self)@, render),
            r is Err ==> final(self)@ == old(self)@,
    {
        if self.phase != Phase::FrameOpen {
            return Err(GuiError::FrameNotOpen);
        }
        if !self.scopes.is_empty() {
            return Err(GuiError::UnclosedScopes);
        }
        self.phase = Phase::Idle;
        self.draw_data = render;
        Ok(())
    }

    /// The context whose draw data may be fetched now: the current one, once a
    /// frame of it was rendered and no other has begun since.
    pub fn draw_data(&self) -> (r: Result<ImGuiContext, GuiError>)
        requires
            self.wf(),
        ensures
            self@.current is None ==> r == Err::<ImGuiContext, GuiError>(
                GuiError::NoCurrentContext,
            ),
            self@.current is Some && !self@.draw_data ==> r == Err::<ImGuiContext, GuiError>(
                GuiError::NoDrawData,
            ),
            self@.draw_data ==> r == Ok::<ImGuiContext, GuiError>(self@.current.unwrap()),
    {
        match self.current {
            None => Err(GuiError::NoCurrentContext),
            Some(c) => {
                if self.draw_data {
                    Ok(c)
                } else {
                    Err(GuiError::NoDrawData)
                }
            },
        }
    }

    /// Whether context `c` is alive.
    pub fn is_live(&self, c: ImGuiContext) -> (r: bool)
        ensures
            r == self@.live.contains(c),
    {
        self.position(c).is_some()
    }
}

} // verus!
