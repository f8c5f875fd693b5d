use save_point::SavePoints;

#[test]
fn test_new_savepoints() {
    let save_points = SavePoints::new();
    assert!(save_points.memories.is_empty());
}

#[test]
fn test_append_location() {
    let mut save_points = SavePoints::new();
    let path = String::from("example/path1");
    save_points.append_location(&path);
    assert_eq!(save_points.memories.len(), 1);
    assert_eq!(save_points.memories[0], path);
}

#[test]
fn test_save_memory() {
    let save_points = SavePoints {
        memories: vec![String::from("example/path1")],
        memory_path: String::new(),
    };
    let temp_file = "temp_save.json";
    let order = save_points.save_memory(temp_file).expect("failed to save");
    assert_eq!(order.path, temp_file);
    let loaded: Vec<String> = serde_json::from_str(&order.contents).expect("not a list");
    assert_eq!(loaded.len(), 1);
    assert_eq!(loaded[0], String::from("example/path1"));
}

#[test]
fn test_load_memory() {
    let temp_file = "temp_load.json";
    let save_points = SavePoints {
        memories: vec![String::from("example/path2")],
        memory_path: String::new(),
    };
    let order = save_points.save_memory(temp_file).expect("failed to save");
    let loaded_save_points =
        SavePoints::load_memory(temp_file, Some(&order.contents)).expect("failed to load");
    assert_eq!(loaded_save_points.memories.len(), 1);
    assert_eq!(loaded_save_points.memories[0], String::from("example/path2"));
}
