use shards_gui::context::ExecContext;
use shards_gui::gui::{registerShards, EguiContext, GuiInstance, GuiShard, Panels};
use shards_gui::registry::{registerShard, Registry, RegistryError};
use shards_gui::shard::{Phase, Shard};
use shards_gui::table::NameTable;
use shards_gui::types::Value;

#[test]
fn register_shards_adds_both() {
    let mut registry = Registry::new();
    assert!(!registry.contains("GUI"));
    assert_eq!(registerShards(&mut registry), Ok(()));
    let gui = registry.lookup("GUI").unwrap();
    assert_eq!(gui.factory, GuiShard::Context);
    assert_eq!(gui.hash, 0xDD89_A8D2);
    let panels = registry.lookup("GUI.Panels").unwrap();
    assert_eq!(panels.factory, GuiShard::Panels);
    assert_eq!(panels.hash, 0xE8A4_FAB5);
    assert!(registry.lookup("GUI.Panel").is_none());
    assert!(registry.lookup("gui").is_none());
}

#[test]
fn register_shards_twice_is_an_error() {
    let mut registry = Registry::new();
    assert_eq!(registerShards(&mut registry), Ok(()));
    assert_eq!(registerShards(&mut registry), Err(RegistryError::DuplicateName));
    assert_eq!(registry.lookup("GUI").unwrap().factory, GuiShard::Context);
    assert_eq!(registry.lookup("GUI.Panels").unwrap().factory, GuiShard::Panels);
}

#[test]
fn register_shards_adds_none_where_one_name_is_taken() {
    let mut registry = Registry::new();
    assert_eq!(registry.register("GUI.Panels", 1, GuiShard::Context), Ok(()));
    assert_eq!(registerShards(&mut registry), Err(RegistryError::DuplicateName));
    assert!(!registry.contains("GUI"));
    let kept = registry.lookup("GUI.Panels").unwrap();
    assert_eq!(kept.hash, 1);
    assert_eq!(kept.factory, GuiShard::Context);
}

#[test]
fn register_keeps_the_first_of_a_name() {
    let mut registry: Registry<u8> = Registry::new();
    assert_eq!(registry.register("a", 10, 1), Ok(()));
    assert_eq!(registry.register("b", 20, 2), Ok(()));
    assert_eq!(registry.register("a", 30, 3), Err(RegistryError::DuplicateName));
    assert_eq!(registry.lookup("a").unwrap().hash, 10);
    assert_eq!(registry.lookup("a").unwrap().factory, 1);
    assert_eq!(registry.lookup("b").unwrap().factory, 2);
}

#[test]
fn cleared_registry_takes_the_names_again() {
    let mut registry = Registry::new();
    assert_eq!(registerShards(&mut registry), Ok(()));
    registry.clear();
    assert!(!registry.contains("GUI"));
    assert!(!registry.contains("GUI.Panels"));
    assert_eq!(registerShards(&mut registry), Ok(()));
}

#[test]
fn register_shard_uses_the_name_and_hash_of_the_type() {
    let mut registry: Registry<u8> = Registry::new();
    assert_eq!(registerShard::<Panels, u8>(&mut registry, 7), Ok(()));
    let entry = registry.lookup(Panels::registerName()).unwrap();
    assert_eq!(entry.hash, Panels::hash());
    assert_eq!(entry.factory, 7);
    assert_eq!(
        registerShard::<Panels, u8>(&mut registry, 8),
        Err(RegistryError::DuplicateName)
    );
    assert_eq!(registerShard::<EguiContext, u8>(&mut registry, 9), Ok(()));
    assert_eq!(registry.lookup("GUI").unwrap().factory, 9);
}

#[test]
fn factory_makes_fresh_shards() {
    match GuiShard::Context.create() {
        GuiInstance::Context(shard) => {
            assert_eq!(shard.state(), Phase::Fresh);
            assert_eq!(shard.name(), "GUI");
        }
        GuiInstance::Panels(_) => panic!("a panel from the context factory"),
    }
    match GuiShard::Panels.create() {
        GuiInstance::Panels(shard) => {
            assert_eq!(shard.state(), Phase::Fresh);
            assert_eq!(shard.name(), "GUI.Panels");
        }
        GuiInstance::Context(_) => panic!("a context from the panel factory"),
    }
}

#[test]
fn table_sets_and_adds() {
    let mut table: NameTable<u32> = NameTable::new();
    assert!(!table.contains("a"));
    assert_eq!(table.get("a"), None);
    table.set("a", 1);
    table.set("b", 2);
    assert_eq!(table.get("a"), Some(&1));
    table.set("a", 3);
    assert_eq!(table.get("a"), Some(&3));
    assert_eq!(table.get("b"), Some(&2));
    assert!(!table.add("a", 4));
    assert_eq!(table.get("a"), Some(&3));
    assert!(table.add("c", 5));
    assert_eq!(table.get("c"), Some(&5));
    assert!(table.contains("c"));
    assert!(!table.contains(""));
    table.clear();
    assert!(!table.contains("a"));
    assert_eq!(table.get("c"), None);
    assert!(table.add("a", 6));
    assert_eq!(table.get("a"), Some(&6));
}

#[test]
fn registered_shards_run_a_graph() {
    let mut registry = Registry::new();
    assert_eq!(registerShards(&mut registry), Ok(()));
    let mut provider = match registry.lookup("GUI").unwrap().factory.create() {
        GuiInstance::Context(shard) => shard,
        GuiInstance::Panels(_) => panic!("GUI makes a panel"),
    };
    let mut panel = match registry.lookup("GUI.Panels").unwrap().factory.create() {
        GuiInstance::Panels(shard) => shard,
        GuiInstance::Context(_) => panic!("GUI.Panels makes a context"),
    };

    let mut ctx = ExecContext::new();
    assert_eq!(provider.warmup(&mut ctx), Ok(()));
    let root = provider.activate(&mut ctx, &Value::NoValue).unwrap();
    let object = match root {
        Value::Object(object) => object,
        other => panic!("not an object: {:?}", other),
    };
    let required = panel.requiredVariables().unwrap()[0].name.clone();
    ctx.expose(&required, root);
    assert_eq!(panel.warmup(&mut ctx), Ok(()));
    assert_eq!(panel.activate(&mut ctx, &Value::Int(5)), Ok(Value::Int(5)));
    assert_eq!(ctx.objects.get(object).unwrap().pass_count(), 1);
    panel.cleanup(&mut ctx);
    assert_eq!(ctx.objects.strong_count(object), 1);
    provider.cleanup(&mut ctx);
    assert_eq!(ctx.objects.strong_count(object), 0);
}
