//! The GUI context that shards share, and the one thing done with it here:
//! a rendering pass that shows a central panel.
//!
//! The context itself is egui's. A panel can only be shown while a pass of the
//! context is open, so a pass is begun before the panel and ended after it.
//! What is believed of egui stands at the functions named `native_*`.
use vstd::prelude::*;

verus! {

/// `egui::Context`, of which nothing is known here but what the two names
/// below stand for.
#[verifier::external_type_specification]
#[verifier::external_body]
pub struct ExNativeContext(egui::Context);

/// Whether a rendering pass of the context is open: `egui::Context::begin_pass`
/// was called and `egui::Context::end_pass` was not yet.
pub uninterp spec fn pass_open(native: egui::Context) -> bool;

/// How many rendering passes of the context have ended: what
/// `egui::Context::cumulative_pass_nr` returns.
pub uninterp spec fn passes_completed(native: egui::Context) -> nat;

/// Calls `egui::Context::default`. Believed: the new context has no pass
/// open, and its count of ended passes is zero.
#[verifier::external_body]
fn native_context() -> (native: egui::Context)
    ensures
        !pass_open(native),
        passes_completed(native) == 0,
{
    egui::Context::default()
}

/// Calls `egui::Context::cumulative_pass_nr`. Believed: outside a pass it
/// returns the context's count of ended passes.
#[verifier::external_body]
fn native_pass_number(native: &egui::Context) -> (n: u64)
    requires
        !pass_open(*native),
    ensures
        n == passes_completed(*native),
{
    native.cumulative_pass_nr()
}

/// Calls `egui::Context::begin_pass` with an empty input. Believed: on a
/// context without an open pass it returns, with the pass open and the count
/// of ended passes as before.
#[verifier::external_body]
fn native_begin_pass(native: &mut egui::Context)
    requires
        !pass_open(*old(native)),
    ensures
        pass_open(*final(native)),
        passes_completed(*final(native)) == passes_completed(*old(native)),
    no_unwind
{
    native.begin_pass(egui::RawInput::default());
}

/// Calls `egui::CentralPanel::show` on a default panel without content.
/// Believed: while a pass is open it returns, with the pass still open and the
/// count of ended passes as before.
#[verifier::external_body]
fn native_show_central_panel(native: &mut egui::Context)
    requires
        pass_open(*old(native)),
    ensures
        pass_open(*final(native)),
        passes_completed(*final(native)) == passes_completed(*old(native)),
    no_unwind
{
    let _ = egui::CentralPanel::default().show(native, |_ui| {});
}

/// Calls `egui::Context::end_pass` and drops what the pass painted. Believed:
/// while a pass is open and the count of ended passes can grow, it returns,
/// with no pass open and the count one higher.
#[verifier::external_body]
fn native_end_pass(native: &mut egui::Context)
    requires
        pass_open(*old(native)),
        passes_completed(*old(native)) < u64::MAX,
    ensures
        !pass_open(*final(native)),
        passes_completed(*final(native)) == passes_completed(*old(native)) + 1,
    no_unwind
{
    let _ = native.end_pass();
}

/// One whole pass that shows a central panel over all the area that is left.
fn run_central_panel_pass(native: &mut egui::Context)
    requires
        !pass_open(*old(native)),
        passes_completed(*old(native)) < u64::MAX,
    ensures
        !pass_open(*final(native)),
        passes_completed(*final(native)) == passes_completed(*old(native)) + 1,
    no_unwind
{
    native_begin_pass(native);
    native_show_central_panel(native);
    native_end_pass(native);
}

/// A GUI context: the root of a GUI tree. Between two calls no rendering pass
/// is open.
pub struct UiContext {
    native: egui::Context,
}

impl UiContext {
    #[verifier::type_invariant]
    spec fn idle(self) -> bool {
        !pass_open(self.native)
    }

    /// How many rendering passes this context has been through.
    pub closed spec fn passes(&self) -> nat {
        passes_completed(self.native)
    }

    /// A new context, which has not rendered anything.
    pub fn new() -> (ui: UiContext)
        ensures
            ui.passes() == 0,
    {
        UiContext { native: native_context() }
    }

    /// How many rendering passes this context has been through.
    pub fn pass_count(&self) -> (n: u64)
        ensures
            n == self.passes(),
    {
        proof {
            use_type_invariant(self);
        }
        native_pass_number(&self.native)
    }

    /// Runs one rendering pass that shows an empty central panel, which covers
    /// whatever area is left. Returns whether it did: a context that has
    /// counted `u64::MAX` passes runs no more.
    pub fn render_central_panel(&mut self) -> (rendered: bool)
        ensures
            rendered == (old(self).passes() < u64::MAX),
            !rendered ==> *final(self) == *old(self),
            final(self).passes() == old(self).passes() + (if rendered {
                1nat
            } else {
                0nat
            }),
    {
        proof {
            use_type_invariant(&*self);
        }
        if native_pass_number(&self.native) == u64::MAX {
            return false;
        }
        run_central_panel_pass(&mut self.native);
        true
    }
}

} // verus!
