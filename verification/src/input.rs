use vstd::prelude::*;

verus! {

/// The keys that the game reacts to.
#[derive(Clone, Copy, Debug, PartialEq, Eq, Structural)]
pub enum ControlKey {
    ArrowLeft,
    ArrowRight,
    ArrowUp,
    ArrowDown,
    KeyJ,
    Space,
    Escape,
}

/// The keys that went down and the keys that came up during one frame.
pub struct InputFrame {
    pub just_pressed: Vec<ControlKey>,
    pub just_released: Vec<ControlKey>,
}

fn contains_key(keys: &Vec<ControlKey>, key: ControlKey) -> (res: bool)
    ensures
        res == keys@.contains(key),
{
    let mut i: usize = 0;
    while i < keys.len()
        invariant
            i <= keys.len(),
            forall|j: int| 0 <= j < i ==> keys@[j] != key,
        decreases keys.len() - i,
    {
        if keys[i] == key {
            return true;
        }
        i = i + 1;
    }
    false
}

impl InputFrame {
    /// Whether `key` went down in this frame.
    pub open spec fn spec_just_pressed(&self, key: ControlKey) -> bool {
        self.just_pressed@.contains(key)
    }

    /// Whether `key` came up in this frame.
    pub open spec fn spec_just_released(&self, key: ControlKey) -> bool {
        self.just_released@.contains(key)
    }

    pub fn new(just_pressed: Vec<ControlKey>, just_released: Vec<ControlKey>) -> (res: InputFrame)
        ensures
            res.just_pressed@ == just_pressed@,
            res.just_released@ == just_released@,
    {
        InputFrame { just_pressed, just_released }
    }

    #[verifier::when_used_as_spec(spec_just_pressed)]
    pub fn just_pressed(&self, key: ControlKey) -> (res: bool)
        ensures
            res == self.spec_just_pressed(key),
    {
        contains_key(&self.just_pressed, key)
    }

    #[verifier::when_used_as_spec(spec_just_released)]
    pub fn just_released(&self, key: ControlKey) -> (res: bool)
        ensures
            res == self.spec_just_released(key),
    {
        contains_key(&self.just_released, key)
    }
}

} // verus!
