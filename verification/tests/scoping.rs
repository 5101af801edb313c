use sound_control::assets::{AssetCatalog, AssetEntry, ContextResolver, ExportedAsset};
use sound_control::backend::AudioBackend;
use sound_control::controller::{ScriptObject, SoundController};
use sound_control::methods;
use sound_control::values::{Diagnostic, ScriptValue};

fn catalog() -> AssetCatalog {
    AssetCatalog {
        entries: vec![
            AssetEntry { context: 10, name: String::from("boom"), asset: ExportedAsset::Sound(7) },
            AssetEntry { context: 10, name: String::from("ding"), asset: ExportedAsset::Sound(8) },
        ],
    }
}

fn resolver() -> ContextResolver {
    ContextResolver { node_contexts: vec![(1, 10)], root_context: Some(10) }
}

fn controller(obj: &ScriptObject) -> SoundController {
    match obj {
        ScriptObject::Sound(c) => *c,
        ScriptObject::Other => panic!("not a sound controller"),
    }
}

/// Two controllers, each having started instances; controller A tracks an
/// instance of asset 7, another instance of 7 and one of 8 play alongside.
fn playing_world() -> (ScriptObject, ScriptObject, AudioBackend) {
    let scene = resolver();
    let cat = catalog();
    let mut audio = AudioBackend { durations: vec![], instances: vec![], next_handle: 0 };
    let mut a = ScriptObject::Sound(SoundController::new(Some(1)));
    let mut b = ScriptObject::Sound(SoundController::new(None));
    let boom = String::from("boom");
    let ding = String::from("ding");
    methods::attach_sound(&mut b, &boom, &scene, &cat, &audio);
    methods::start(&mut b, 0, 1, &mut audio); // instance 0: asset 7
    methods::attach_sound(&mut a, &boom, &scene, &cat, &audio);
    methods::start(&mut a, 0, 1, &mut audio); // instance 1: asset 7, tracked by A
    methods::attach_sound(&mut b, &ding, &scene, &cat, &audio);
    methods::start(&mut b, 0, 1, &mut audio); // instance 2: asset 8, tracked by B
    assert!(audio.instances.iter().all(|i| i.playing));
    (a, b, audio)
}

#[test]
fn stop_by_name_stops_asset_system_wide() {
    // issued through controller B, yet A's instance of the same asset stops too
    let (a, b, mut audio) = playing_world();
    let boom = String::from("boom");
    let (v, d) =
        methods::stop(&b, Some(&boom), &resolver(), &catalog(), &mut audio);
    assert_eq!(v, ScriptValue::Undefined);
    assert_eq!(d, None);
    assert!(!audio.instances[0].playing);
    assert!(!audio.instances[1].playing);
    assert!(audio.instances[2].playing);
    // the tracked handles are silenced in the backend, never cleared
    assert_eq!(controller(&a).active_instance, Some(1));
    assert_eq!(controller(&b).active_instance, Some(2));
}

#[test]
fn stop_by_unknown_name_is_a_diagnosed_no_op() {
    let (_, b, mut audio) = playing_world();
    let before = audio.instances.clone();
    let name = String::from("missing");
    let (_, d) = methods::stop(&b, Some(&name), &resolver(), &catalog(), &mut audio);
    assert_eq!(d, Some(Diagnostic::SoundNotFound));
    assert_eq!(audio.instances, before);
}

#[test]
fn stop_by_name_without_context_is_a_diagnosed_no_op() {
    let (_, b, mut audio) = playing_world();
    let scene = ContextResolver { node_contexts: vec![], root_context: None };
    let before = audio.instances.clone();
    let name = String::from("boom");
    let (_, d) = methods::stop(&b, Some(&name), &scene, &catalog(), &mut audio);
    assert_eq!(d, Some(Diagnostic::NoContext));
    assert_eq!(audio.instances, before);
}

#[test]
fn stop_with_owner_stops_exactly_the_tracked_instance() {
    let (a, _, mut audio) = playing_world();
    let (_, d) = methods::stop(&a, None, &resolver(), &catalog(), &mut audio);
    assert_eq!(d, None);
    assert!(audio.instances[0].playing);
    assert!(!audio.instances[1].playing);
    assert!(audio.instances[2].playing);
}

#[test]
fn stop_with_owner_and_no_tracked_instance_is_a_no_op() {
    let (_, _, mut audio) = playing_world();
    let idle = ScriptObject::Sound(SoundController::new(Some(1)));
    let before = audio.instances.clone();
    let (_, d) = methods::stop(&idle, None, &resolver(), &catalog(), &mut audio);
    assert_eq!(d, None);
    assert_eq!(audio.instances, before);
}

#[test]
fn stop_with_stale_tracked_handle_is_a_no_op() {
    let (_, _, mut audio) = playing_world();
    let mut stale = SoundController::new(Some(1));
    stale.active_instance = Some(99);
    let obj = ScriptObject::Sound(stale);
    let before = audio.instances.clone();
    let (_, d) = methods::stop(&obj, None, &resolver(), &catalog(), &mut audio);
    assert_eq!(d, None);
    assert_eq!(audio.instances, before);
}

#[test]
fn stop_without_owner_or_name_stops_everything() {
    let (_, b, mut audio) = playing_world();
    let (_, d) = methods::stop(&b, None, &resolver(), &catalog(), &mut audio);
    assert_eq!(d, None);
    assert!(audio.instances.iter().all(|i| !i.playing));
    // instances stay in the record, only silenced
    assert_eq!(audio.instances.len(), 3);
}

#[test]
fn stop_on_a_non_sound_receiver_is_diagnosed() {
    let (_, _, mut audio) = playing_world();
    let before = audio.instances.clone();
    let (v, d) = methods::stop(&ScriptObject::Other, None, &resolver(), &catalog(), &mut audio);
    assert_eq!(v, ScriptValue::Undefined);
    assert_eq!(d, Some(Diagnostic::NotASound));
    assert_eq!(audio.instances, before);
}

#[test]
fn backend_start_failure_leaves_tracking_unchanged() {
    // a backend that cannot issue a fresh handle swallows the start
    let scene = resolver();
    let cat = catalog();
    let mut audio =
        AudioBackend { durations: vec![], instances: vec![], next_handle: u32::MAX };
    let mut obj = ScriptObject::Sound(SoundController::new(None));
    let boom = String::from("boom");
    methods::attach_sound(&mut obj, &boom, &scene, &cat, &audio);
    let (_, d) = methods::start(&mut obj, 0, 1, &mut audio);
    assert_eq!(d, None);
    assert!(audio.instances.is_empty());
    assert_eq!(controller(&obj).active_instance, None);
}

#[test]
fn backend_duration_lookup() {
    let audio = AudioBackend { durations: vec![(7, 1500), (8, 2500)], instances: vec![], next_handle: 0 };
    assert_eq!(audio.get_sound_duration(7), Some(1500));
    assert_eq!(audio.get_sound_duration(8), Some(2500));
    assert_eq!(audio.get_sound_duration(9), None);
}
