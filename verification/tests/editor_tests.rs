use phoenix_engine::editor::app::{ConsoleMessage, EditorMode, LogLevel};
use phoenix_engine::editor::panels::{AssetPanel, ConsolePanel, HierarchyPanel, InspectorPanel};
use phoenix_engine::editor::project::WindowSettings;
use phoenix_engine::editor::scene::{Scene, SceneMetadata, SerializedEntity};

#[test]
fn play_controls() {
    assert_eq!(EditorMode::Edit.on_play_button(), (EditorMode::Play, "Entering play mode"));
    assert_eq!(EditorMode::Play.on_play_button(), (EditorMode::Edit, "Stopped"));
    assert_eq!(EditorMode::Pause.on_play_button(), (EditorMode::Edit, "Stopped"));
    assert_eq!(EditorMode::Play.on_pause_button(), EditorMode::Pause);
    assert_eq!(EditorMode::Edit.on_pause_button(), EditorMode::Edit);
    assert_eq!(EditorMode::Pause.on_resume_button(), EditorMode::Play);
    assert_eq!(EditorMode::Play.on_resume_button(), EditorMode::Play);
    assert_eq!(EditorMode::Play.play_button_label(), "⏹ Stop");
    assert_eq!(EditorMode::Pause.play_button_label(), "▶ Play");
    assert!(EditorMode::Play.runs_game());
    assert!(!EditorMode::Pause.runs_game());
}

#[test]
fn console_filter_toggles() {
    let mut c = ConsolePanel::new();
    assert_eq!(c.filter_level(), None);
    assert!(c.auto_scroll());
    assert!(c.shows(LogLevel::Error));
    c.toggle_filter(LogLevel::Warning);
    assert_eq!(c.filter_level(), Some(LogLevel::Warning));
    assert!(c.shows(LogLevel::Warning));
    assert!(!c.shows(LogLevel::Info));
    c.toggle_filter(LogLevel::Error);
    assert_eq!(c.filter_level(), Some(LogLevel::Error));
    c.toggle_filter(LogLevel::Error);
    assert_eq!(c.filter_level(), None);
    c.set_auto_scroll(false);
    assert!(!c.auto_scroll());
    let msg = ConsoleMessage { level: LogLevel::Info, message: "hi".to_string(), timestamp: "12:00:00".to_string() };
    assert!(c.shows(msg.level));
}

#[test]
fn hierarchy_search_ignores_case() {
    let mut h = HierarchyPanel::new();
    assert!(h.matches_search("Anything"));
    h.search_query_mut().push_str("PLAY");
    assert!(h.matches_search("Player"));
    assert!(h.matches_search("main player"));
    assert!(!h.matches_search("Enemy"));
    h.search_query_mut().clear();
    h.search_query_mut().push_str("ÉPÉE");
    assert!(h.matches_search("grande épée"));
    let _ = InspectorPanel::new();
}

#[test]
fn panel_and_settings_defaults() {
    assert_eq!(AssetPanel::new().current_path(), "assets");
    let w = WindowSettings::default();
    assert_eq!((w.width, w.height), (1920, 1080));
    assert_eq!(w.title, "Phoenix Game");
    assert!(!w.fullscreen && w.vsync && w.resizable);
    let m = SceneMetadata::default();
    assert_eq!(m.version, 1);
    assert!(m.author.is_empty() && m.description.is_empty());
}

#[test]
fn scene_entities() {
    let mut scene = Scene::new("Forest");
    assert_eq!(scene.name, "Forest");
    assert!(scene.entities.is_empty());
    let a = SerializedEntity::new("Tree");
    let b = SerializedEntity::new("Rock");
    assert_ne!(a.id, b.id);
    assert_eq!(a.id.len(), 36);
    assert!(a.active && a.layer == 0 && a.components.len() == 0);
    let (ida, idb) = (a.id.clone(), b.id.clone());
    scene.add_entity(a);
    scene.add_entity(b);
    assert_eq!(scene.get_entity(&idb).unwrap().name, "Rock");
    assert_eq!(scene.entity_index(&ida), Some(0));
    scene.remove_entity(&ida);
    assert!(scene.get_entity(&ida).is_none());
    assert_eq!(scene.entities.len(), 1);
    assert_eq!(scene.entity_index(&idb), Some(0));
    scene.remove_entity("missing");
    assert_eq!(scene.entities.len(), 1);
}

#[test]
fn entity_components() {
    let mut e = SerializedEntity::new("Hero");
    e.set_component("Sprite", serde_json::Value::String("hero".to_string()));
    assert!(e.components.contains_key("Sprite"));
    assert_eq!(e.components.get("Sprite"), Some(&serde_json::Value::String("hero".to_string())));
    e.set_component("Sprite", serde_json::Value::Bool(true));
    assert_eq!(e.components.len(), 1);
}

#[test]
fn edit_entity_in_place() {
    let mut scene = Scene::new("Cave");
    let a = SerializedEntity::new("Bat");
    let b = SerializedEntity::new("Rat");
    let (ida, idb) = (a.id.clone(), b.id.clone());
    scene.add_entity(a);
    scene.add_entity(b);
    {
        let e = scene.get_entity_mut(&idb).unwrap();
        e.name = "Big Rat".to_string();
        e.layer = 3;
    }
    assert_eq!(scene.get_entity(&idb).unwrap().name, "Big Rat");
    assert_eq!(scene.get_entity(&idb).unwrap().layer, 3);
    assert_eq!(scene.get_entity(&ida).unwrap().name, "Bat");
    assert!(scene.get_entity_mut("missing").is_none());
    assert_eq!(scene.entities.len(), 2);
}

#[test]
fn new_entity_ids_are_hyphenated_v4() {
    let e = SerializedEntity::new("Slime");
    let chars: Vec<char> = e.id.chars().collect();
    assert_eq!(chars.len(), 36);
    for i in [8, 13, 18, 23] {
        assert_eq!(chars[i], '-');
    }
    assert_eq!(chars[14], '4');
}
