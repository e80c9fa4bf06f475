//! The stack of open scopes (windows, child windows, groups, ID and style
//! pushes) within one frame.
use vstd::prelude::*;

verus! {

/// What kind of scope a push opened; the matching pop must name the same kind.
#[derive(Clone, Copy, Debug, PartialEq, Eq, Structural)]
pub enum ScopeKind {
    Window,
    Child,
    Group,
    Id,
    StyleColor,
    StyleVar,
}

/// Why a pop was refused.
#[derive(Clone, Copy, Debug, PartialEq, Eq, Structural)]
pub enum ScopeError {
    /// No scope is open.
    Empty,
    /// The innermost open scope is of another kind.
    Mismatch,
}

/// The stack after closing a scope of kind `k`, or `None` where the innermost
/// open scope is missing or of another kind.
pub open spec fn pop_spec(s: Seq<ScopeKind>, k: ScopeKind) -> Option<Seq<ScopeKind>> {
    if s.len() > 0 && s.last() == k {
        Some(s.drop_last())
    } else {
        None
    }
}

/// The error a pop of kind `k` meets on stack `s`, if any.
pub open spec fn pop_error(s: Seq<ScopeKind>, k: ScopeKind) -> Option<ScopeError> {
    if s.len() == 0 {
        Some(ScopeError::Empty)
    } else if s.last() != k {
        Some(ScopeError::Mismatch)
    } else {
        None
    }
}

/// The top `n` scopes of `s` are all of kind `k`.
pub open spec fn top_all(s: Seq<ScopeKind>, k: ScopeKind, n: nat) -> bool {
    n <= s.len() && forall|i: int| s.len() - n <= i < s.len() ==> s[i] == k
}

/// The stack after closing the top `n` scopes together, all of kind `k`; `None`
/// where fewer than `n` are open or one of them is of another kind.
pub open spec fn pop_many_spec(s: Seq<ScopeKind>, k: ScopeKind, n: nat) -> Option<Seq<ScopeKind>> {
    if top_all(s, k, n) {
        Some(s.subrange(0, s.len() - n))
    } else {
        None
    }
}

/// The error a pop of `n` scopes of kind `k` meets on `s`, if any: a scope of
/// another kind among the top `n` is a mismatch, else too few is `Empty`.
pub open spec fn pop_many_error(s: Seq<ScopeKind>, k: ScopeKind, n: nat) -> Option<ScopeError> {
    if top_all(s, k, n) {
        None
    } else if top_all(s, k, s.len()) {
        Some(ScopeError::Empty)
    } else {
        Some(ScopeError::Mismatch)
    }
}

/// Pops each kind of `ks` in turn, first to last; `None` as soon as one is refused.
pub open spec fn pop_seq(s: Seq<ScopeKind>, ks: Seq<ScopeKind>) -> Option<Seq<ScopeKind>>
    decreases ks.len(),
{
    if ks.len() == 0 {
        Some(s)
    } else {
        match pop_spec(s, ks[0]) {
            Some(t) => pop_seq(t, ks.drop_first()),
            None => None,
        }
    }
}

/// Opening the scopes `ks` in order and then closing them in reverse order
/// brings any stack back to what it was, depth and contents.
pub proof fn lemma_push_then_pop_reverse(s: Seq<ScopeKind>, ks: Seq<ScopeKind>)
    ensures
        pop_seq(s + ks, ks.reverse()) == Some(s),
    decreases ks.len(),
{
    if ks.len() > 0 {
        let t = s + ks;
        let r = ks.reverse();
        let front = ks.drop_last();
        assert(t.last() == ks.last());
        assert(r[0] == ks.last());
        assert(t.drop_last() =~= s + front);
        assert(r.drop_first() =~= front.reverse());
        lemma_push_then_pop_reverse(s, front);
    } else {
        assert(s + ks =~= s);
    }
}

/// A pop with no matching push is refused: closing any scope on an empty stack
/// fails with `Empty`.
pub proof fn lemma_pop_unmatched(k: ScopeKind)
    ensures
        pop_spec(Seq::<ScopeKind>::empty(), k) is None,
        pop_error(Seq::<ScopeKind>::empty(), k) == Some(ScopeError::Empty),
{
}

/// A stack of open scopes, innermost last.
pub struct ScopeStack {
    kinds: Vec<ScopeKind>,
}

impl View for ScopeStack {
    type V = Seq<ScopeKind>;

    closed spec fn view(&self) -> Seq<ScopeKind> {
        self.kinds@
    }
}

impl ScopeStack {
    pub fn new() -> (r: ScopeStack)
        ensures
            r@ == Seq::<ScopeKind>::empty(),
    {
        ScopeStack { kinds: Vec::new() }
    }

    pub fn depth(&self) -> (r: usize)
        ensures
            r == self@.len(),
    {
        self.kinds.len()
    }

    pub fn is_empty(&self) -> (r: bool)
        ensures
            r == (self@.len() == 0),
    {
        self.kinds.len() == 0
    }

    /// The innermost open scope.
    pub fn top(&self) -> (r: Option<ScopeKind>)
        ensures
            r == (if self@.len() == 0 { None } else { Some(self@.last()) }),
    {
        if self.kinds.len() == 0 {
            None
        } else {
            Some(self.kinds[self.kinds.len() - 1])
        }
    }

    /// Opens a scope of kind `k`.
    pub fn push(&mut self, k: ScopeKind)
        ensures
            final(self)@ == old(self)@.push(k),
    {
        self.kinds.push(k);
    }

    /// Closes the innermost scope, which must be of kind `k`; otherwise the
    /// stack is left as it was.
    pub fn pop(&mut self, k: ScopeKind) -> (r: Result<(), ScopeError>)
        ensures
            r is Ok <==> pop_spec(old(self)@, k) is Some,
            r is Ok ==> Some(final(self)@) == pop_spec(old(self)@, k),
            r matches Err(e) ==> Some(e) == pop_error(old(self)@, k) && final(self)@ == old(self)@,
    {
        let n = self.kinds.len();
        if n == 0 {
            return Err(ScopeError::Empty);
        }
        if self.kinds[n - 1] != k {
            return Err(ScopeError::Mismatch);
        }
        self.kinds.pop();
        Ok(())
    }

    /// Closes the top `n` scopes, all of which must be of kind `k` (a style
    /// stack popped by count); otherwise the stack is left as it was.
    pub fn pop_many(&mut self, k: ScopeKind, n: usize) -> (r: Result<(), ScopeError>)
        ensures
            r is Ok <==> pop_many_spec(old(self)@, k, n as nat) is Some,
            r is Ok ==> Some(final(self)@) == pop_many_spec(old(self)@, k, n as nat),
            r matches Err(e) ==> Some(e) == pop_many_error(old(self)@, k, n as nat)
                && final(self)@ == old(self)@,
    {
        let len = self.kinds.len();
        let mut i: usize = 0;
        while i < n && i < len
            invariant
                len == self.kinds@.len(),
                i <= len,
                forall|j: int| len - i <= j < len ==> self.kinds@[j] == k,
            decreases len - i,
        {
            if self.kinds[len - 1 - i] != k {
                return Err(ScopeError::Mismatch);
            }
            i = i + 1;
        }
        if n > len {
            return Err(ScopeError::Empty);
        }
        self.kinds.truncate(len - n);
        Ok(())
    }
}

} // verus!
