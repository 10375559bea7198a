use phoenix_engine::engine::resources::{ResourceManager, ResourceType};

#[test]
fn extensions_name_resource_types() {
    assert_eq!(ResourceType::from_extension("png"), Some(ResourceType::Texture));
    assert_eq!(ResourceType::from_extension("JPEG"), Some(ResourceType::Texture));
    assert_eq!(ResourceType::from_extension("Gif"), Some(ResourceType::Texture));
    assert_eq!(ResourceType::from_extension("ogg"), Some(ResourceType::Audio));
    assert_eq!(ResourceType::from_extension("FLAC"), Some(ResourceType::Audio));
    assert_eq!(ResourceType::from_extension("otf"), Some(ResourceType::Font));
    assert_eq!(ResourceType::from_extension("toml"), Some(ResourceType::Data));
    assert_eq!(ResourceType::from_extension("yaml"), Some(ResourceType::Data));
    assert_eq!(ResourceType::from_extension("py"), Some(ResourceType::Script));
    assert_eq!(ResourceType::from_extension("txt"), None);
    assert_eq!(ResourceType::from_extension(""), None);
    assert_eq!(ResourceType::from_extension("pngx"), None);
}

#[test]
fn load_get_unload() {
    let mut rm = ResourceManager::new("./game_assets");
    assert_eq!(rm.base_path(), "./game_assets");
    assert!(!rm.is_loaded("player"));
    let r = rm.load_file("player", "sprites/player.png", ResourceType::Texture, Ok(vec![1, 2, 3]));
    assert_eq!(r, Ok(()));
    assert!(rm.is_loaded("player"));
    assert_eq!(rm.get_data("player"), Some(&vec![1u8, 2, 3]));
    let meta = rm.get_metadata("player").unwrap();
    assert_eq!(meta.path, "sprites/player.png");
    assert_eq!(meta.resource_type, ResourceType::Texture);
    assert_eq!(meta.size, 3);
    rm.unload("player");
    assert!(!rm.is_loaded("player"));
    assert!(rm.get_metadata("player").is_none());
    assert!(rm.get_data("player").is_none());
}

#[test]
fn failed_read_reports_the_file_and_changes_nothing() {
    let mut rm = ResourceManager::default();
    assert_eq!(rm.base_path(), "./assets");
    let r = rm.load_file("jump", "audio/jump.wav", ResourceType::Audio, Err("not found".to_string()));
    assert_eq!(r, Err("Failed to load 'audio/jump.wav': not found".to_string()));
    assert!(!rm.is_loaded("jump"));
}

#[test]
fn reload_replaces_and_ids_keep_first_load_order() {
    let mut rm = ResourceManager::new("a");
    rm.load_file("b", "b.json", ResourceType::Data, Ok(vec![0])).unwrap();
    rm.load_file("a", "a.json", ResourceType::Data, Ok(vec![1])).unwrap();
    rm.load_file("b", "b2.json", ResourceType::Data, Ok(vec![2, 2])).unwrap();
    assert_eq!(rm.loaded_ids(), vec!["b".to_string(), "a".to_string()]);
    assert_eq!(rm.get_data("b"), Some(&vec![2u8, 2]));
    assert_eq!(rm.get_metadata("b").unwrap().size, 2);
    rm.set_base_path("other");
    assert_eq!(rm.base_path(), "other");
    assert!(rm.is_loaded("a"));
}

#[test]
fn fresh_manager_and_load_order() {
    let mut r = ResourceManager::new("./assets");
    assert_eq!(r.base_path(), "./assets");
    assert!(!r.is_loaded("player"));
    assert!(r.get_data("player").is_none());
    assert!(r.get_metadata("player").is_none());
    assert!(r.loaded_ids().is_empty());
    assert!(r.load_file("b", "b.png", ResourceType::Texture, Ok(vec![1])).is_ok());
    assert!(r.load_file("a", "a.png", ResourceType::Texture, Ok(vec![2, 3])).is_ok());
    assert!(r.load_file("b", "b2.png", ResourceType::Texture, Ok(vec![4, 5, 6])).is_ok());
    assert_eq!(r.loaded_ids(), vec!["b".to_string(), "a".to_string()]);
    assert_eq!(r.get_metadata("b").unwrap().size, 3);
    r.unload("b");
    assert_eq!(r.loaded_ids(), vec!["a".to_string()]);
    assert!(r.get_metadata("b").is_none());
}
