use imgui_sys::scope::{ScopeError, ScopeKind};
use imgui_sys::session::{Gui, GuiError, Layout, Phase};
use imgui_sys::ImGuiContext;

fn ctx(addr: usize) -> ImGuiContext {
    ImGuiContext::from_addr(addr).unwrap()
}

#[test]
fn null_address_gives_no_context() {
    assert!(ImGuiContext::from_addr(0).is_none());
    assert_eq!(ctx(4096).addr(), 4096);
}

#[test]
fn end_to_end_frame_leaves_no_current_context() {
    let c = ctx(0x1000);
    let mut g = Gui::new();
    assert_eq!(g.create_context(c), Ok(()));
    assert_eq!(g.current(), Some(c));
    assert_eq!(g.verify_layout(true), Ok(()));
    assert_eq!(g.layout(), Layout::Verified);
    assert_eq!(g.new_frame(), Ok(()));
    assert_eq!(g.phase(), Phase::FrameOpen);
    assert_eq!(g.open_scope(ScopeKind::Window), Ok(()));
    assert_eq!(g.require_frame(), Ok(()));
    assert_eq!(g.close_scope(ScopeKind::Window), Ok(()));
    assert_eq!(g.render(), Ok(()));
    assert_eq!(g.phase(), Phase::Idle);
    assert_eq!(g.draw_data(), Ok(c));
    assert_eq!(g.destroy_context(c), Ok(()));
    assert_eq!(g.current(), None);
    assert!(!g.is_live(c));
    assert_eq!(g.draw_data(), Err(GuiError::NoCurrentContext));
}

#[test]
fn layout_mismatch_is_fatal() {
    let mut g = Gui::new();
    assert_eq!(g.create_context(ctx(8)), Ok(()));
    assert_eq!(g.new_frame(), Err(GuiError::LayoutUnchecked));
    assert_eq!(g.verify_layout(false), Err(GuiError::LayoutMismatch));
    assert_eq!(g.layout(), Layout::Mismatch);
    assert_eq!(g.verify_layout(true), Err(GuiError::LayoutMismatch));
    assert_eq!(g.new_frame(), Err(GuiError::LayoutMismatch));
    assert_eq!(g.phase(), Phase::Idle);
}

#[test]
fn new_frame_needs_a_current_context() {
    let mut g = Gui::new();
    assert_eq!(g.verify_layout(true), Ok(()));
    assert_eq!(g.new_frame(), Err(GuiError::NoCurrentContext));
}

#[test]
fn second_new_frame_is_refused() {
    let mut g = Gui::new();
    g.create_context(ctx(8)).unwrap();
    g.verify_layout(true).unwrap();
    assert_eq!(g.new_frame(), Ok(()));
    assert_eq!(g.new_frame(), Err(GuiError::FrameAlreadyOpen));
}

#[test]
fn scope_calls_outside_a_frame_are_refused() {
    let mut g = Gui::new();
    g.create_context(ctx(8)).unwrap();
    g.verify_layout(true).unwrap();
    assert_eq!(g.require_frame(), Err(GuiError::FrameNotOpen));
    assert_eq!(g.open_scope(ScopeKind::Group), Err(GuiError::FrameNotOpen));
    assert_eq!(g.close_scope(ScopeKind::Group), Err(GuiError::FrameNotOpen));
    assert_eq!(g.close_scopes(ScopeKind::StyleVar, 1), Err(GuiError::FrameNotOpen));
    assert_eq!(g.end_frame(), Err(GuiError::FrameNotOpen));
    assert_eq!(g.render(), Err(GuiError::FrameNotOpen));
}

#[test]
fn unmatched_close_is_refused_inside_a_frame() {
    let mut g = Gui::new();
    g.create_context(ctx(8)).unwrap();
    g.verify_layout(true).unwrap();
    g.new_frame().unwrap();
    assert_eq!(g.close_scope(ScopeKind::Id), Err(GuiError::Scope(ScopeError::Empty)));
    assert_eq!(g.open_scope(ScopeKind::Window), Ok(()));
    assert_eq!(g.close_scope(ScopeKind::Id), Err(GuiError::Scope(ScopeError::Mismatch)));
    assert_eq!(g.depth(), 1);
}

#[test]
fn frame_cannot_end_with_open_scopes() {
    let mut g = Gui::new();
    g.create_context(ctx(8)).unwrap();
    g.verify_layout(true).unwrap();
    g.new_frame().unwrap();
    g.open_scope(ScopeKind::Window).unwrap();
    g.open_scope(ScopeKind::StyleColor).unwrap();
    g.open_scope(ScopeKind::StyleColor).unwrap();
    assert_eq!(g.end_frame(), Err(GuiError::UnclosedScopes));
    assert_eq!(g.render(), Err(GuiError::UnclosedScopes));
    assert_eq!(g.close_scopes(ScopeKind::StyleColor, 2), Ok(()));
    assert_eq!(g.close_scopes(ScopeKind::Window, 2), Err(GuiError::Scope(ScopeError::Empty)));
    assert_eq!(g.close_scope(ScopeKind::Window), Ok(()));
    assert_eq!(g.end_frame(), Ok(()));
    assert_eq!(g.draw_data(), Err(GuiError::NoDrawData));
}

#[test]
fn new_frame_drops_previous_draw_data() {
    let mut g = Gui::new();
    let c = ctx(8);
    g.create_context(c).unwrap();
    g.verify_layout(true).unwrap();
    g.new_frame().unwrap();
    g.render().unwrap();
    assert_eq!(g.draw_data(), Ok(c));
    g.new_frame().unwrap();
    assert_eq!(g.draw_data(), Err(GuiError::NoDrawData));
}

#[test]
fn first_context_becomes_current_and_later_ones_do_not() {
    let a = ctx(16);
    let b = ctx(32);
    let mut g = Gui::new();
    assert_eq!(g.create_context(a), Ok(()));
    assert_eq!(g.create_context(b), Ok(()));
    assert_eq!(g.current(), Some(a));
    assert_eq!(g.create_context(a), Err(GuiError::ContextAlreadyLive));
    assert!(g.is_live(a) && g.is_live(b));
}

#[test]
fn set_current_switches_and_checks_liveness() {
    let a = ctx(16);
    let b = ctx(32);
    let mut g = Gui::new();
    g.create_context(a).unwrap();
    assert_eq!(g.set_current(Some(b)), Err(GuiError::UnknownContext));
    g.create_context(b).unwrap();
    assert_eq!(g.set_current(Some(b)), Ok(()));
    assert_eq!(g.current(), Some(b));
    assert_eq!(g.set_current(None), Ok(()));
    assert_eq!(g.current(), None);
}

#[test]
fn current_context_is_pinned_while_its_frame_is_open() {
    let a = ctx(16);
    let b = ctx(32);
    let mut g = Gui::new();
    g.create_context(a).unwrap();
    g.create_context(b).unwrap();
    g.verify_layout(true).unwrap();
    g.new_frame().unwrap();
    assert_eq!(g.set_current(Some(b)), Err(GuiError::FrameStillOpen));
    assert_eq!(g.set_current(Some(a)), Ok(()));
    assert_eq!(g.destroy_context(a), Err(GuiError::FrameStillOpen));
    assert_eq!(g.destroy_context(b), Ok(()));
    assert!(!g.is_live(b));
    assert_eq!(g.current(), Some(a));
    assert_eq!(g.destroy_context(b), Err(GuiError::UnknownContext));
}

#[test]
fn destroying_another_context_keeps_the_current_one() {
    let a = ctx(16);
    let b = ctx(32);
    let mut g = Gui::new();
    g.create_context(a).unwrap();
    g.create_context(b).unwrap();
    g.verify_layout(true).unwrap();
    g.new_frame().unwrap();
    g.render().unwrap();
    assert_eq!(g.destroy_context(b), Ok(()));
    assert_eq!(g.current(), Some(a));
    assert_eq!(g.draw_data(), Ok(a));
}

#[test]
fn switching_context_drops_draw_data() {
    let a = ctx(16);
    let b = ctx(32);
    let mut g = Gui::new();
    g.create_context(a).unwrap();
    g.create_context(b).unwrap();
    g.verify_layout(true).unwrap();
    g.new_frame().unwrap();
    g.render().unwrap();
    g.set_current(Some(b)).unwrap();
    assert_eq!(g.draw_data(), Err(GuiError::NoDrawData));
}
