use shards_gui::context::ExecContext;
use shards_gui::error::ShardError;
use shards_gui::gui::{EguiContext, Panels};
use shards_gui::object_type::{egui_ctx_type, egui_ui_type};
use shards_gui::objects::SlotState;
use shards_gui::shard::{Phase, Shard};
use shards_gui::types::{ObjectRef, Type, Value};
use shards_gui::ui::UiContext;

fn object_of(value: Value) -> ObjectRef {
    match value {
        Value::Object(object) => object,
        other => panic!("not an object: {:?}", other),
    }
}

#[test]
fn provider_hands_out_one_context() {
    let mut ctx = ExecContext::new();
    let mut provider = EguiContext::default();
    assert_eq!(provider.state(), Phase::Fresh);
    assert_eq!(provider.warmup(&mut ctx), Ok(()));
    assert_eq!(provider.state(), Phase::Warm);

    let first = provider.activate(&mut ctx, &Value::NoValue).unwrap();
    let object = object_of(first);
    assert_eq!(object.object_type, egui_ctx_type());
    assert_eq!(object.slot, 0);
    for n in 0..5 {
        let input = Value::Int(n);
        assert_eq!(provider.activate(&mut ctx, &input), Ok(first));
        assert_eq!(ctx.objects.strong_count(object), 1);
    }
    assert_eq!(ctx.objects.len(), 1);
    assert_eq!(ctx.objects.state(object), SlotState::Live);
    assert_eq!(ctx.objects.get(object).unwrap().pass_count(), 0);
}

#[test]
fn two_providers_create_two_contexts() {
    let mut ctx = ExecContext::new();
    let mut one = EguiContext::default();
    let mut two = EguiContext::default();
    assert_eq!(one.warmup(&mut ctx), Ok(()));
    assert_eq!(two.warmup(&mut ctx), Ok(()));
    let a = object_of(one.activate(&mut ctx, &Value::NoValue).unwrap());
    let b = object_of(two.activate(&mut ctx, &Value::NoValue).unwrap());
    assert_eq!(a.slot, 0);
    assert_eq!(b.slot, 1);
    one.cleanup(&mut ctx);
    assert_eq!(ctx.objects.strong_count(a), 0);
    assert_eq!(ctx.objects.strong_count(b), 1);
}

#[test]
fn provider_does_not_run_before_warmup_or_after_cleanup() {
    let mut ctx = ExecContext::new();
    let mut provider = EguiContext::default();
    assert_eq!(
        provider.activate(&mut ctx, &Value::NoValue),
        Err(ShardError::ActivationFailure)
    );
    provider.cleanup(&mut ctx);
    assert_eq!(provider.state(), Phase::Fresh);
    assert_eq!(provider.warmup(&mut ctx), Ok(()));
    assert_eq!(provider.warmup(&mut ctx), Err(ShardError::WarmupFailure));
    assert_eq!(ctx.objects.len(), 1);
    provider.cleanup(&mut ctx);
    assert_eq!(provider.state(), Phase::Cold);
    assert_eq!(
        provider.activate(&mut ctx, &Value::NoValue),
        Err(ShardError::ActivationFailure)
    );
    assert_eq!(provider.warmup(&mut ctx), Err(ShardError::WarmupFailure));
    assert_eq!(provider.state(), Phase::Cold);
    assert_eq!(ctx.objects.len(), 1);
}

#[test]
fn panel_renders_in_the_provided_context() {
    let mut ctx = ExecContext::new();
    let mut provider = EguiContext::default();
    let mut panel = Panels::default();

    assert_eq!(provider.warmup(&mut ctx), Ok(()));
    let root = provider.activate(&mut ctx, &Value::NoValue).unwrap();
    let object = object_of(root);
    ctx.expose("GUI.Root", root);
    assert_eq!(ctx.objects.strong_count(object), 1);

    assert_eq!(panel.warmup(&mut ctx), Ok(()));
    assert_eq!(panel.state(), Phase::Warm);
    assert_eq!(ctx.objects.strong_count(object), 2);
    assert_eq!(ctx.objects.get(object).unwrap().pass_count(), 0);

    let input = Value::Int(42);
    assert_eq!(panel.activate(&mut ctx, &input), Ok(Value::Int(42)));
    assert_eq!(ctx.objects.get(object).unwrap().pass_count(), 1);
    assert_eq!(ctx.objects.strong_count(object), 2);

    panel.cleanup(&mut ctx);
    assert_eq!(panel.state(), Phase::Cold);
    assert_eq!(ctx.objects.strong_count(object), 1);
    assert_eq!(ctx.objects.state(object), SlotState::Live);

    provider.cleanup(&mut ctx);
    assert_eq!(provider.state(), Phase::Cold);
    assert_eq!(ctx.objects.strong_count(object), 0);
    assert_eq!(ctx.objects.state(object), SlotState::Released);
    assert!(ctx.objects.get(object).is_none());
}

#[test]
fn context_lives_until_the_last_cleanup_in_either_order() {
    let mut ctx = ExecContext::new();
    let mut provider = EguiContext::default();
    let mut panel = Panels::default();
    assert_eq!(provider.warmup(&mut ctx), Ok(()));
    let root = provider.activate(&mut ctx, &Value::NoValue).unwrap();
    let object = object_of(root);
    ctx.expose("GUI.Root", root);
    assert_eq!(panel.warmup(&mut ctx), Ok(()));

    provider.cleanup(&mut ctx);
    assert_eq!(ctx.objects.strong_count(object), 1);
    assert_eq!(ctx.objects.state(object), SlotState::Live);
    assert_eq!(panel.activate(&mut ctx, &Value::Bool(true)), Ok(Value::Bool(true)));
    assert_eq!(ctx.objects.get(object).unwrap().pass_count(), 1);
    panel.cleanup(&mut ctx);
    assert_eq!(ctx.objects.strong_count(object), 0);
    assert_eq!(ctx.objects.state(object), SlotState::Released);
}

#[test]
fn panel_gives_every_input_back() {
    let mut ctx = ExecContext::new();
    let mut provider = EguiContext::default();
    let mut panel = Panels::default();
    assert_eq!(provider.warmup(&mut ctx), Ok(()));
    let root = provider.activate(&mut ctx, &Value::NoValue).unwrap();
    let object = object_of(root);
    ctx.expose("GUI.Root", root);
    assert_eq!(panel.warmup(&mut ctx), Ok(()));
    let inputs = [Value::NoValue, Value::Bool(false), Value::Int(i64::MIN), root];
    for (n, input) in inputs.iter().enumerate() {
        assert_eq!(panel.activate(&mut ctx, input), Ok(*input));
        assert_eq!(ctx.objects.get(object).unwrap().pass_count(), n as u64 + 1);
        assert_eq!(ctx.objects.strong_count(object), 2);
        assert_eq!(panel.state(), Phase::Warm);
    }
}

#[test]
fn cleanup_twice_releases_once() {
    let mut ctx = ExecContext::new();
    let mut provider = EguiContext::default();
    let mut panel = Panels::default();
    assert_eq!(provider.warmup(&mut ctx), Ok(()));
    let root = provider.activate(&mut ctx, &Value::NoValue).unwrap();
    let object = object_of(root);
    ctx.expose("GUI.Root", root);
    assert_eq!(panel.warmup(&mut ctx), Ok(()));
    assert_eq!(ctx.objects.strong_count(object), 2);
    panel.cleanup(&mut ctx);
    assert_eq!(ctx.objects.strong_count(object), 1);
    panel.cleanup(&mut ctx);
    assert_eq!(ctx.objects.strong_count(object), 1);
    assert_eq!(panel.state(), Phase::Cold);
    assert_eq!(
        panel.activate(&mut ctx, &Value::Int(1)),
        Err(ShardError::ActivationFailure)
    );
    assert_eq!(panel.warmup(&mut ctx), Err(ShardError::WarmupFailure));
    assert_eq!(ctx.objects.strong_count(object), 1);
}

#[test]
fn panel_without_provider_misses_its_variable() {
    let mut ctx = ExecContext::new();
    let mut panel = Panels::default();
    assert_eq!(panel.warmup(&mut ctx), Err(ShardError::MissingVariable));
    assert_eq!(panel.state(), Phase::Fresh);
    assert_eq!(
        panel.activate(&mut ctx, &Value::Bool(true)),
        Err(ShardError::ActivationFailure)
    );
    panel.cleanup(&mut ctx);
    assert_eq!(panel.state(), Phase::Fresh);
    assert_eq!(ctx.objects.len(), 0);
}

#[test]
fn panel_warms_up_once_its_variable_is_there() {
    let mut ctx = ExecContext::new();
    let mut provider = EguiContext::default();
    let mut panel = Panels::default();
    assert_eq!(panel.warmup(&mut ctx), Err(ShardError::MissingVariable));
    panel.cleanup(&mut ctx);
    assert_eq!(provider.warmup(&mut ctx), Ok(()));
    let root = provider.activate(&mut ctx, &Value::NoValue).unwrap();
    ctx.expose("GUI.Root", root);
    assert_eq!(panel.warmup(&mut ctx), Ok(()));
    assert_eq!(panel.state(), Phase::Warm);
}

#[test]
fn panel_rejects_an_object_of_another_type() {
    let mut ctx = ExecContext::new();
    let handle = ctx.objects.create(egui_ui_type(), None);
    ctx.expose("GUI.Root", Value::Object(handle.as_ref()));
    let mut panel = Panels::default();
    assert_eq!(panel.warmup(&mut ctx), Err(ShardError::TypeMismatch));
    assert_eq!(panel.state(), Phase::Fresh);
    assert_eq!(ctx.objects.strong_count(handle.as_ref()), 1);

    ctx.expose("GUI.Root", Value::Int(3));
    assert_eq!(panel.warmup(&mut ctx), Err(ShardError::TypeMismatch));
    assert_eq!(panel.state(), Phase::Fresh);
}

#[test]
fn panel_fails_where_the_context_has_no_payload() {
    let mut ctx = ExecContext::new();
    let owner = ctx.objects.create(egui_ctx_type(), None);
    let object = owner.as_ref();
    ctx.expose("GUI.Root", Value::Object(object));
    let mut panel = Panels::default();
    assert_eq!(panel.warmup(&mut ctx), Ok(()));
    assert_eq!(ctx.objects.strong_count(object), 2);
    assert_eq!(ctx.objects.state(object), SlotState::Uninitialized);
    assert_eq!(
        panel.activate(&mut ctx, &Value::Int(1)),
        Err(ShardError::ActivationFailure)
    );
    assert_eq!(panel.state(), Phase::Warm);
    panel.cleanup(&mut ctx);
    assert_eq!(ctx.objects.strong_count(object), 1);
}

#[test]
fn panel_fails_where_the_provider_is_gone() {
    let mut ctx = ExecContext::new();
    let mut provider = EguiContext::default();
    let mut panel = Panels::default();
    assert_eq!(provider.warmup(&mut ctx), Ok(()));
    let root = provider.activate(&mut ctx, &Value::NoValue).unwrap();
    ctx.expose("GUI.Root", root);
    provider.cleanup(&mut ctx);
    assert_eq!(panel.warmup(&mut ctx), Err(ShardError::WarmupFailure));
    assert_eq!(panel.state(), Phase::Fresh);
}

#[test]
fn shards_declare_what_they_take_and_give() {
    let mut provider = EguiContext::default();
    let mut panel = Panels::default();
    assert_eq!(EguiContext::registerName(), "GUI");
    assert_eq!(Panels::registerName(), "GUI.Panels");
    assert_eq!(provider.name(), "GUI");
    assert_eq!(panel.name(), "GUI.Panels");
    assert_eq!(provider.inputTypes(), vec![Type::NoValue]);
    assert_eq!(provider.outputTypes(), vec![Type::Object(egui_ctx_type())]);
    assert_eq!(panel.inputTypes(), vec![Type::NoValue]);
    assert_eq!(panel.outputTypes(), vec![Type::NoValue]);
    assert!(provider.exposedVariables().is_none());
    assert!(provider.requiredVariables().is_none());
    assert!(panel.exposedVariables().is_none());
}

#[test]
fn panel_requires_the_gui_root() {
    let mut panel = Panels::default();
    for _ in 0..3 {
        let required = panel.requiredVariables().unwrap();
        assert_eq!(required.len(), 1);
        assert_eq!(required[0].name, "GUI.Root");
        assert_eq!(required[0].exposedType, Type::Object(egui_ctx_type()));
        assert_eq!(required[0].help, "The exposed GUI root context.");
        assert!(!required[0].isMutable);
    }
    assert_eq!(panel.state(), Phase::Fresh);
}

#[test]
fn gui_context_counts_its_passes() {
    let mut ui = UiContext::new();
    assert_eq!(ui.pass_count(), 0);
    assert!(ui.render_central_panel());
    assert_eq!(ui.pass_count(), 1);
    assert!(ui.render_central_panel());
    assert!(ui.render_central_panel());
    assert_eq!(ui.pass_count(), 3);
    let other = UiContext::new();
    assert_eq!(other.pass_count(), 0);
}
