use evn_engine::rendering::resolved_shader;
use evn_engine::rendering::shaders::{shader_from_bytes, spv_words, SpvError};
use evn_engine::rendering::{DriverOrReason, RendererInitError};
use evn_engine::resources::{
    resource_path, Resource, ResourceBuilder, ResourceState, ResourcesData,
};
use evn_engine::systems::{EngineEvent, EventHandler};
use evn_engine::Running;

#[test]
fn registered_resource_starts_loading() {
    let mut store = ResourcesData::new();
    assert!(!store.contains_resource("normal"));
    store.add_resource("normal");
    assert!(store.contains_resource("normal"));
    assert!(store.get_resource("normal").is_loading());
    assert!(store.poll_resolved("normal").is_none());
}

#[test]
fn resource_reaches_one_terminal_state_and_holds_it() {
    let mut store = ResourcesData::new();
    store.add_resource("normal");
    store.resolve(
        "normal",
        Ok(Resource::Shader(evn_engine::rendering::Shader { vert: vec![7], frag: vec![8, 9] })),
    );
    assert!(store.get_resource("normal").is_loaded());

    // a later outcome for the same name changes nothing
    store.resolve("normal", Err(String::from("too late")));
    match store.get_resource("normal") {
        ResourceState::Loaded(Resource::Shader(shader)) => {
            assert_eq!(shader.vert, vec![7]);
            assert_eq!(shader.frag, vec![8, 9]);
        }
        _ => panic!("terminal state must hold"),
    }

    // repeated reads keep returning the same value
    assert!(store.get_resource("normal").is_loaded());
    assert!(store.poll_resolved("normal").unwrap().is_loaded());
}

#[test]
fn resolve_of_unregistered_name_changes_nothing() {
    let mut store = ResourcesData::new();
    store.add_resource("kept");
    store.resolve("missing", Err(String::from("nobody asked")));
    assert!(!store.contains_resource("missing"));
    assert!(store.get_resource("kept").is_loading());
}

#[test]
fn reregistering_overwrites_a_terminal_state() {
    let mut store = ResourcesData::new();
    store.add_resource("normal");
    store.resolve("normal", Err(String::from("first try failed")));
    assert!(store.get_resource("normal").is_failed());
    store.add_resource("normal");
    assert!(store.get_resource("normal").is_loading());
}

#[test]
fn shader_loads_end_to_end_with_matching_lengths() {
    // "normal" carries a vertex and a fragment byte buffer of
    // pre-compiled words; after the loader hands its outcome back,
    // a peek reports the payload with matching lengths.
    let vert_bytes: Vec<u8> = vec![1, 0, 0, 0, 2, 0, 0, 0];
    let frag_bytes: Vec<u8> = vec![3, 0, 0, 0];
    let mut store = ResourcesData::new();
    store.add_resource("normal");
    let outcome = shader_from_bytes(&vert_bytes, &frag_bytes)
        .map(Resource::Shader)
        .map_err(|_| String::from("unreadable shader"));
    store.resolve("normal", outcome);
    match store.get_resource("normal") {
        ResourceState::Loaded(Resource::Shader(shader)) => {
            assert_eq!(shader.vert.len(), vert_bytes.len() / 4);
            assert_eq!(shader.frag.len(), frag_bytes.len() / 4);
        }
        _ => panic!("shader must have loaded"),
    }
}

#[test]
fn failed_config_reports_nonempty_cause_without_crashing() {
    // a config loader pointed at a nonexistent path reports its error
    // as a failed state; the store and the process carry on.
    let mut store = ResourcesData::new();
    store.add_resource("config");
    store.resolve("config", Err(String::from("no such file: ./resources/open/config.yml")));
    match store.get_resource("config") {
        ResourceState::Failed(reason) => assert!(!reason.is_empty()),
        _ => panic!("the config must have failed"),
    }
    // unrelated resources stay independently usable
    store.add_resource("other");
    assert!(store.get_resource("other").is_loading());
}

#[test]
fn builder_registers_jobs_and_names() {
    let builder = ResourceBuilder::new(true)
        .with_config("config", "config.yml")
        .with_shader("normal", "shaders/normal.vert.spv", "shaders/normal.frag.spv");
    assert!(builder.is_dev);
    assert_eq!(builder.config_jobs.len(), 1);
    assert_eq!(builder.config_jobs[0].0, "config");
    assert_eq!(builder.config_jobs[0].1, "config.yml");
    assert_eq!(builder.shader_jobs.len(), 1);
    assert_eq!(builder.shader_jobs[0].0, "normal");
    assert!(builder.res.contains_resource("config"));
    assert!(builder.res.contains_resource("normal"));
    assert!(builder.res.get_resource("normal").is_loading());
}

#[test]
fn resource_paths_depend_on_mode_and_tree() {
    assert_eq!(resource_path("config.yml", true, true), "./resources/open/config.yml");
    assert_eq!(resource_path("a.spv", true, false), "./resources/closed/a.spv");
    assert_eq!(resource_path("config.yml", false, true), "./config.yml");
    assert_eq!(resource_path("a.spv", false, false), "./res/a.spv");
}

#[test]
fn spv_words_are_little_endian() {
    let bytes: Vec<u8> = vec![0x67, 0x45, 0x23, 0x01, 0xff, 0x00, 0x00, 0x00];
    let words = spv_words(&bytes).expect("aligned buffer decodes");
    assert_eq!(words, vec![0x0123_4567, 0x0000_00ff]);
}

#[test]
fn spv_words_reject_unaligned_buffers() {
    let bytes: Vec<u8> = vec![1, 2, 3];
    assert_eq!(spv_words(&bytes), Err(SpvError::NotWordAligned));
    let vert: Vec<u8> = vec![1, 0, 0, 0];
    let frag: Vec<u8> = vec![1, 2];
    assert!(shader_from_bytes(&vert, &frag).is_err());
}

#[test]
fn resolved_shader_demands_a_loaded_shader() {
    let loaded = ResourceState::Loaded(Resource::Shader(evn_engine::rendering::Shader {
        vert: vec![1],
        frag: vec![2],
    }));
    assert!(resolved_shader("normal", &loaded).is_ok());

    let failed = ResourceState::Failed(String::from("disk on fire"));
    match resolved_shader("normal", &failed) {
        Err(RendererInitError::ShaderLoadingError { name, err }) => {
            assert_eq!(name, "normal");
            match err {
                DriverOrReason::Reason(msg) => assert_eq!(msg, "disk on fire"),
                DriverOrReason::Driver(_) => panic!("cause must be the recorded reason"),
            }
        }
        _ => panic!("a failed resource cannot build a module"),
    }

    let loading = ResourceState::Loading;
    assert!(resolved_shader("normal", &loading).is_err());
}

#[test]
fn renderer_error_messages_are_exact() {
    let surface = RendererInitError::SurfaceCreationError { err: -4 };
    assert_eq!(surface.message(), "Failed to create Surface: -4");
    let device = RendererInitError::PhysicalDeviceError {
        err: DriverOrReason::Reason(String::from("Failed to find suitable device")),
    };
    assert_eq!(
        device.message(),
        "Physical Device Error: Failed to find suitable device"
    );
    let shader = RendererInitError::ShaderLoadingError {
        name: String::from("normal"),
        err: DriverOrReason::Driver(12),
    };
    assert_eq!(shader.message(), "Failed to load Shader \"normal\": 12");
}

#[test]
fn close_request_stops_the_loop() {
    let mut handler = EventHandler;
    let mut running = Running(true);
    handler.run(&vec![EngineEvent::Other, EngineEvent::Other], &mut running);
    assert!(running.0);
    handler.run(&vec![EngineEvent::Other, EngineEvent::CloseRequested], &mut running);
    assert!(!running.0);
    // once cleared, the flag stays cleared
    handler.run(&vec![EngineEvent::Other], &mut running);
    assert!(!running.0);
}
