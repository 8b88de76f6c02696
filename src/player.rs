use vstd::prelude::*;

verus! {

/// The keys that steer a player; every other key is `Other`.
#[derive(Clone, Copy, Debug, PartialEq, Eq, Structural)]
pub enum Key {
    W,
    S,
    A,
    D,
    Space,
    Other,
}

/// Which movement keys are held down.
#[derive(Clone, Copy, Debug, PartialEq, Eq, Structural)]
pub struct InputController {
    pub walk_forward: bool,
    pub walk_backward: bool,
    pub walk_left: bool,
    pub walk_right: bool,
    pub jump: bool,
}

/// The direction a player is steered in, as a coefficient of each of its two
/// horizontal axes: `sideways` of the side vector (positive to the left) and
/// `forward` of the look vector. Each is -1, 0 or 1.
#[derive(Clone, Copy, Debug, PartialEq, Eq, Structural)]
pub struct Movement {
    pub sideways: i8,
    pub forward: i8,
}

/// One for a held key, zero otherwise.
pub open spec fn held(b: bool) -> int {
    if b {
        1
    } else {
        0
    }
}

impl InputController {
    /// No key held.
    pub fn new() -> (r: InputController)
        ensures
            !r.walk_forward && !r.walk_backward && !r.walk_left && !r.walk_right && !r.jump,
    {
        InputController {
            walk_forward: false,
            walk_backward: false,
            walk_left: false,
            walk_right: false,
            jump: false,
        }
    }

    /// The state after `key` was pressed (`pressed`) or released.
    pub open spec fn after_key(self, key: Key, pressed: bool) -> InputController {
        match key {
            Key::W => InputController { walk_forward: pressed, ..self },
            Key::S => InputController { walk_backward: pressed, ..self },
            Key::A => InputController { walk_left: pressed, ..self },
            Key::D => InputController { walk_right: pressed, ..self },
            Key::Space => InputController { jump: pressed, ..self },
            Key::Other => self,
        }
    }

    pub fn on_key(&mut self, key: Key, pressed: bool)
        ensures
            *final(self) == old(self).after_key(key, pressed),
    {
        match key {
            Key::W => self.walk_forward = pressed,
            Key::S => self.walk_backward = pressed,
            Key::A => self.walk_left = pressed,
            Key::D => self.walk_right = pressed,
            Key::Space => self.jump = pressed,
            Key::Other => {},
        }
    }

    /// Left steers along the side vector and right against it; forward
    /// along the look vector and backward against it. Opposite keys held
    /// together cancel.
    pub fn movement(&self) -> (r: Movement)
        ensures
            r.sideways == held(self.walk_left) - held(self.walk_right),
            r.forward == held(self.walk_forward) - held(self.walk_backward),
    {
        let mut sideways: i8 = 0;
        let mut forward: i8 = 0;
        if self.walk_right {
            sideways = sideways - 1;
        }
        if self.walk_left {
            sideways = sideways + 1;
        }
        if self.walk_forward {
            forward = forward + 1;
        }
        if self.walk_backward {
            forward = forward - 1;
        }
        Movement { sideways, forward }
    }
}

impl Default for InputController {
    fn default() -> (r: InputController)
        ensures
            !r.walk_forward && !r.walk_backward && !r.walk_left && !r.walk_right && !r.jump,
    {
        InputController::new()
    }
}

/// The position of the first of a node's children, given by name in order,
/// that is called "Camera".
pub fn find_camera(child_names: &Vec<String>) -> (r: Option<usize>)
    ensures
        match r {
            Some(i) => {
                &&& i < child_names@.len()
                &&& child_names@[i as int]@ == "Camera"@
                &&& forall|j: int| 0 <= j < i ==> child_names@[j]@ != "Camera"@
            },
            None => forall|j: int| 0 <= j < child_names@.len() ==> child_names@[j]@ != "Camera"@,
        },
{
    let camera = "Camera".to_owned();
    let mut i: usize = 0;
    while i < child_names.len()
        invariant
            camera@ == "Camera"@,
            i <= child_names@.len(),
            forall|j: int| 0 <= j < i ==> child_names@[j]@ != "Camera"@,
        decreases child_names@.len() - i,
    {
        if child_names[i] == camera {
            return Some(i);
        }
        i = i + 1;
    }
    None
}

} // verus!
