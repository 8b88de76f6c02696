use fyrox_glue::{find_camera, InputController, Key, Movement};

#[test]
fn keys_set_and_clear_flags() {
    let mut c = InputController::new();
    c.on_key(Key::W, true);
    c.on_key(Key::A, true);
    c.on_key(Key::Space, true);
    assert!(c.walk_forward && c.walk_left && c.jump);
    assert!(!c.walk_backward && !c.walk_right);
    c.on_key(Key::W, false);
    c.on_key(Key::S, true);
    c.on_key(Key::D, true);
    assert!(!c.walk_forward && c.walk_backward && c.walk_right);
    let before = c;
    c.on_key(Key::Other, true);
    assert_eq!(c, before);
}

#[test]
fn default_holds_no_key() {
    let c = InputController::default();
    assert_eq!(c.movement(), Movement { sideways: 0, forward: 0 });
    assert!(!c.jump);
}

#[test]
fn movement_directions() {
    let mut c = InputController::new();
    c.on_key(Key::W, true);
    assert_eq!(c.movement(), Movement { sideways: 0, forward: 1 });
    c.on_key(Key::D, true);
    assert_eq!(c.movement(), Movement { sideways: -1, forward: 1 });
    c.on_key(Key::A, true);
    assert_eq!(c.movement(), Movement { sideways: 0, forward: 1 });
    c.on_key(Key::S, true);
    assert_eq!(c.movement(), Movement { sideways: 0, forward: 0 });
    c.on_key(Key::W, false);
    c.on_key(Key::D, false);
    assert_eq!(c.movement(), Movement { sideways: 1, forward: -1 });
}

#[test]
fn camera_is_first_child_so_named() {
    let names = vec![String::from("Body"), String::from("Camera"), String::from("Camera")];
    assert_eq!(find_camera(&names), Some(1));
    let names = vec![String::from("camera"), String::from("Cam")];
    assert_eq!(find_camera(&names), None);
    assert_eq!(find_camera(&vec![]), None);
}
