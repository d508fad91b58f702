//! The GUI shards: one creates the GUI context that a graph shares, the other
//! shows a panel in it.
use crate::context::ExecContext;
use crate::error::ShardError;
use crate::hash::{spec_stable_hash, stable_hash};
use crate::object_type::egui_ctx_type;
use crate::objects::{with_acquired, with_payload, SharedHandle};
use crate::registry::{registerShard, Registration, Registry, RegistryError};
use crate::shard::{Phase, Shard};
use crate::types::{ObjectRef, Type, Value};
use crate::ui::UiContext;
use crate::variables::{declare_exposed, declared, immutable_variable, ExposedTypes, VariableModel};
use vstd::prelude::*;

verus! {

/// The name of the variable through which the GUI context reaches the shards
/// that draw into it.
pub open spec fn spec_gui_root() -> Seq<char> {
    "GUI.Root"@
}

/// The phase of a shard that holds `context` and remembers in `released`
/// whether it gave a handle back.
pub open spec fn phase_of(context: Option<SharedHandle>, released: bool) -> Phase {
    if context is Some {
        Phase::Warm
    } else if released {
        Phase::Cold
    } else {
        Phase::Fresh
    }
}

/// The object behind an optional handle.
pub open spec fn object_of(context: Option<SharedHandle>) -> Option<ObjectRef> {
    match context {
        Some(handle) => Some(handle@),
        None => None,
    }
}

/// The root of a GUI tree. At warmup it creates the GUI context; at every
/// activation it hands out a reference to that one context.
pub struct EguiContext {
    context: Option<SharedHandle>,
    released: bool,
}

impl Default for EguiContext {
    fn default() -> (shard: Self)
        ensures
            shard.phase() == Phase::Fresh,
            shard.held() is None,
    {
        Self { context: None, released: false }
    }
}

impl Shard for EguiContext {
    open spec fn spec_name() -> Seq<char> {
        "GUI"@
    }

    /// The shard takes no value.
    open spec fn spec_input_types() -> Seq<Type> {
        seq![Type::NoValue]
    }

    /// The shard gives a GUI context object.
    open spec fn spec_output_types() -> Seq<Type> {
        seq![Type::Object(egui_ctx_type())]
    }

    /// The shard exposes no variable: its context leaves it as its output.
    open spec fn spec_exposed() -> Seq<VariableModel> {
        Seq::empty()
    }

    /// The shard requires no variable.
    open spec fn spec_required() -> Seq<VariableModel> {
        Seq::empty()
    }

    closed spec fn phase(&self) -> Phase {
        phase_of(self.context, self.released)
    }

    closed spec fn held(&self) -> Option<ObjectRef> {
        object_of(self.context)
    }

    proof fn lemma_holds_only_warm(&self) {
    }

    fn state(&self) -> (phase: Phase) {
        if self.context.is_some() {
            Phase::Warm
        } else if self.released {
            Phase::Cold
        } else {
            Phase::Fresh
        }
    }

    fn registerName() -> (name: &'static str) {
        "GUI"
    }

    fn hash() -> (hash: u32) {
        stable_hash("GUI")
    }

    fn name(&self) -> (name: &str) {
        "GUI"
    }

    fn inputTypes(&self) -> (types: Vec<Type>) {
        vec![Type::NoValue]
    }

    fn outputTypes(&self) -> (types: Vec<Type>) {
        vec![Type::Object(egui_ctx_type())]
    }

    fn exposedVariables(&mut self) -> (exposed: Option<&ExposedTypes>)
        ensures
            exposed is None,
    {
        None
    }

    fn requiredVariables(&mut self) -> (required: Option<&ExposedTypes>)
        ensures
            required is None,
    {
        None
    }

    /// Creates a GUI context that has rendered nothing, as a new shared object
    /// to which the shard holds the only handle. A fresh shard always
    /// succeeds.
    fn warmup(&mut self, ctx: &mut ExecContext) -> (result: Result<(), ShardError>)
        ensures
            result is Ok <==> old(self).phase() == Phase::Fresh,
            result is Ok ==> {
                let created = final(ctx)@.objects.last();
                &&& final(self).held() == Some(
                    ObjectRef {
                        object_type: egui_ctx_type(),
                        slot: old(ctx)@.objects.len() as usize,
                    },
                )
                &&& final(ctx)@.objects.len() == old(ctx)@.objects.len() + 1
                &&& final(ctx)@.objects.drop_last() == old(ctx)@.objects
                &&& created.object_type == egui_ctx_type()
                &&& created.refs == 1
                &&& created.payload is Some
                &&& created.payload->0.passes() == 0
            },
    {
        if self.context.is_some() || self.released {
            return Err(ShardError::WarmupFailure);
        }
        let handle = ctx.objects.create(egui_ctx_type(), Some(UiContext::new()));
        self.context = Some(handle);
        Ok(())
    }

    /// Gives a reference to the context created at warmup, whatever the
    /// input. Neither the shard nor the context changes by it, so every
    /// activation gives the same reference and no reference count moves.
    fn activate(&mut self, ctx: &mut ExecContext, _input: &Value) -> (result: Result<
        Value,
        ShardError,
    >)
        ensures
            final(ctx)@ == old(ctx)@,
            result == (match old(self).held() {
                Some(object) => Ok::<Value, ShardError>(Value::Object(object)),
                None => Err::<Value, ShardError>(ShardError::ActivationFailure),
            }),
    {
        match &self.context {
            Some(handle) => Ok(Value::Object(handle.as_ref())),
            None => Err(ShardError::ActivationFailure),
        }
    }

    /// Gives the shard's handle back, if it holds one.
    fn cleanup(&mut self, ctx: &mut ExecContext) {
        let handle = self.context.take();
        if handle.is_some() {
            self.released = true;
        }
        ctx.release(handle);
    }
}

/// A panel that covers the remainder of the screen: the area that is left
/// after other panels were added.
pub struct Panels {
    context: Option<SharedHandle>,
    requiring: ExposedTypes,
    released: bool,
}

impl Default for Panels {
    fn default() -> (shard: Self)
        ensures
            shard.phase() == Phase::Fresh,
            shard.held() is None,
    {
        Self { context: None, requiring: Vec::new(), released: false }
    }
}

impl Panels {
    /// Whether the shard, activated in `ctx`, gets to render: it holds a
    /// handle to an object of `ctx` whose payload is there and can run one
    /// more pass.
    pub open spec fn can_render(&self, ctx: &ExecContext) -> bool {
        match self.held() {
            Some(object) => {
                &&& ctx.objects.refers(object)
                &&& ctx.objects.payload(object.slot as int) matches Some(ui)
                &&& ui.passes() < u64::MAX
            },
            None => false,
        }
    }
}

impl Shard for Panels {
    open spec fn spec_name() -> Seq<char> {
        "GUI.Panels"@
    }

    /// The shard takes whatever flows along its edge.
    open spec fn spec_input_types() -> Seq<Type> {
        seq![Type::NoValue]
    }

    /// The shard gives back what it took.
    open spec fn spec_output_types() -> Seq<Type> {
        seq![Type::NoValue]
    }

    /// The shard exposes no variable.
    open spec fn spec_exposed() -> Seq<VariableModel> {
        Seq::empty()
    }

    /// The shard requires one variable: the GUI root, an object of the GUI
    /// context type.
    open spec fn spec_required() -> Seq<VariableModel> {
        seq![
            immutable_variable(
                spec_gui_root(),
                Type::Object(egui_ctx_type()),
                "The exposed GUI root context."@,
            ),
        ]
    }

    closed spec fn phase(&self) -> Phase {
        phase_of(self.context, self.released)
    }

    closed spec fn held(&self) -> Option<ObjectRef> {
        object_of(self.context)
    }

    proof fn lemma_holds_only_warm(&self) {
    }

    fn state(&self) -> (phase: Phase) {
        if self.context.is_some() {
            Phase::Warm
        } else if self.released {
            Phase::Cold
        } else {
            Phase::Fresh
        }
    }

    fn registerName() -> (name: &'static str) {
        "GUI.Panels"
    }

    fn hash() -> (hash: u32) {
        stable_hash("GUI.Panels")
    }

    fn name(&self) -> (name: &str) {
        "GUI.Panels"
    }

    fn inputTypes(&self) -> (types: Vec<Type>) {
        vec![Type::NoValue]
    }

    fn outputTypes(&self) -> (types: Vec<Type>) {
        vec![Type::NoValue]
    }

    fn exposedVariables(&mut self) -> (exposed: Option<&ExposedTypes>)
        ensures
            exposed is None,
    {
        None
    }

    /// The list is made anew at every call.
    fn requiredVariables(&mut self) -> (required: Option<&ExposedTypes>)
        ensures
            required is Some,
    {
        self.requiring.clear();
        let exp_info = declare_exposed(
            "GUI.Root",
            Type::Object(egui_ctx_type()),
            "The exposed GUI root context.",
        );
        self.requiring.push(exp_info);
        Some(&self.requiring)
    }

    /// Binds the GUI root variable and takes a handle to the context it
    /// refers to. A fresh shard fails exactly as the binding does: with
    /// `MissingVariable` where no GUI root is in scope, with `TypeMismatch`
    /// where it is not a GUI context.
    fn warmup(&mut self, ctx: &mut ExecContext) -> (result: Result<(), ShardError>)
        ensures
            old(self).phase() == Phase::Fresh ==> match result {
                Ok(_) => {
                    &&& final(self).held() is Some
                    &&& old(ctx)@.bind(spec_gui_root(), egui_ctx_type()) == Ok::<
                        ObjectRef,
                        ShardError,
                    >(final(self).held()->0)
                    &&& final(ctx)@.objects == with_acquired(
                        old(ctx)@.objects,
                        final(self).held()->0.slot as int,
                    )
                },
                Err(error) => old(ctx)@.bind(spec_gui_root(), egui_ctx_type()) == Err::<
                    ObjectRef,
                    ShardError,
                >(error),
            },
            old(self).phase() == Phase::Fresh && !old(ctx)@.variables.dom().contains(
                spec_gui_root(),
            ) ==> result == Err::<(), ShardError>(ShardError::MissingVariable),
            old(self).phase() == Phase::Fresh && old(ctx)@.variables.dom().contains(
                spec_gui_root(),
            ) && old(ctx)@.variables[spec_gui_root()].spec_type_of() != Type::Object(
                egui_ctx_type(),
            ) ==> result == Err::<(), ShardError>(ShardError::TypeMismatch),
    {
        if self.context.is_some() || self.released {
            return Err(ShardError::WarmupFailure);
        }
        match ctx.bind("GUI.Root", egui_ctx_type()) {
            Ok(handle) => {
                self.context = Some(handle);
                Ok(())
            },
            Err(error) => Err(error),
        }
    }

    /// Runs one rendering pass of the bound context, in which a central panel
    /// covers the area that is left, and gives the input back untouched.
    ///
    /// Fails with `ActivationFailure`, and changes nothing, if the shard holds
    /// no handle, if the object has no payload, or if the context can run no
    /// more pass.
    fn activate(&mut self, ctx: &mut ExecContext, input: &Value) -> (result: Result<
        Value,
        ShardError,
    >)
        ensures
            result == (if old(self).can_render(old(ctx)) {
                Ok::<Value, ShardError>(*input)
            } else {
                Err::<Value, ShardError>(ShardError::ActivationFailure)
            }),
            result is Ok ==> {
                let slot = old(self).held()->0.slot as int;
                &&& final(ctx).objects.payload(slot) is Some
                &&& final(ctx).objects.payload(slot)->0.passes() == old(ctx).objects.payload(
                    slot,
                )->0.passes() + 1
                &&& final(ctx)@.objects == with_payload(
                    old(ctx)@.objects,
                    slot,
                    final(ctx).objects.payload(slot)->0,
                )
            },
            result is Err ==> final(ctx)@ == old(ctx)@,
    {
        let rendered = match &self.context {
            Some(handle) => match ctx.objects.get_mut(handle) {
                Some(gui_ctx) => gui_ctx.render_central_panel(),
                None => false,
            },
            None => false,
        };
        assert(!rendered ==> ctx@.objects =~= old(ctx)@.objects);
        assert forall|slot: int| 0 <= slot < old(ctx)@.objects.len() implies {
            &&& (#[trigger] ctx@.objects[slot]).refs == old(ctx)@.objects[slot].refs
            &&& ctx@.objects[slot].object_type == old(ctx)@.objects[slot].object_type
        } by {
            if rendered && slot == self.held()->0.slot {
                assert(ctx@.objects[slot] == with_payload(
                    old(ctx)@.objects,
                    slot,
                    ctx.objects.payload(slot)->0,
                )[slot]);
            }
        }
        if rendered {
            Ok(*input)
        } else {
            Err(ShardError::ActivationFailure)
        }
    }

    /// Gives the shard's handle back, if it holds one.
    fn cleanup(&mut self, ctx: &mut ExecContext) {
        let handle = self.context.take();
        if handle.is_some() {
            self.released = true;
        }
        ctx.release(handle);
    }
}

/// What the registry keeps to make instances of the GUI shards.
#[derive(Clone, Copy, Debug, PartialEq, Eq, Structural)]
pub enum GuiShard {
    Context,
    Panels,
}

/// An instance of one of the GUI shards.
pub enum GuiInstance {
    Context(EguiContext),
    Panels(Panels),
}

impl GuiShard {
    /// A fresh instance of the shard.
    pub fn create(&self) -> (instance: GuiInstance)
        ensures
            match instance {
                GuiInstance::Context(shard) => {
                    &&& *self == GuiShard::Context
                    &&& shard.phase() == Phase::Fresh
                    &&& shard.held() is None
                },
                GuiInstance::Panels(shard) => {
                    &&& *self == GuiShard::Panels
                    &&& shard.phase() == Phase::Fresh
                    &&& shard.held() is None
                },
            },
    {
        match self {
            GuiShard::Context => GuiInstance::Context(EguiContext::default()),
            GuiShard::Panels => GuiInstance::Panels(Panels::default()),
        }
    }
}

/// Registers the GUI shards, both or none: where either name is taken the
/// registry stays as it is.
pub fn registerShards(registry: &mut Registry<GuiShard>) -> (result: Result<(), RegistryError>)
    ensures
        result is Ok <==> !old(registry)@.dom().contains(EguiContext::spec_name()) && !old(
            registry,
        )@.dom().contains(Panels::spec_name()),
        result is Ok ==> final(registry)@ == old(registry)@.insert(
            EguiContext::spec_name(),
            Registration {
                hash: spec_stable_hash(EguiContext::spec_name()),
                factory: GuiShard::Context,
            },
        ).insert(
            Panels::spec_name(),
            Registration {
                hash: spec_stable_hash(Panels::spec_name()),
                factory: GuiShard::Panels,
            },
        ),
        result is Err ==> final(registry)@ == old(registry)@,
{
    if registry.contains("GUI") || registry.contains("GUI.Panels") {
        return Err(RegistryError::DuplicateName);
    }
    proof {
        reveal_strlit("GUI");
        reveal_strlit("GUI.Panels");
    }
    registerShard::<EguiContext, GuiShard>(registry, GuiShard::Context)?;
    registerShard::<Panels, GuiShard>(registry, GuiShard::Panels)
}

} // verus!
