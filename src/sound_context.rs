use vstd::prelude::*;

verus! {

/// A setting of a scene's sound context that an undoable command can change.
#[derive(Clone, Copy, Debug, PartialEq, Eq, Structural)]
pub enum SoundContextProperty {
    DistanceModel,
    Renderer,
}

/// The name under which a command on `property` shows in the undo history.
pub open spec fn command_name(property: SoundContextProperty) -> Seq<char> {
    match property {
        SoundContextProperty::DistanceModel => "Set Distance Model"@,
        SoundContextProperty::Renderer => "Set Renderer"@,
    }
}

/// An undoable change of one sound-context setting. The command holds the
/// value that is not in effect: executing it puts that value in place and
/// keeps the one it replaced, so that reverting swaps them back.
#[derive(Debug)]
pub struct SoundContextCommand<T> {
    pub property: SoundContextProperty,
    pub value: T,
}

impl<T> SoundContextCommand<T> {
    /// The command and the setting after the two have traded values.
    pub open spec fn swapped(self, current: T) -> (SoundContextCommand<T>, T) {
        (SoundContextCommand { property: self.property, value: current }, self.value)
    }

    pub fn new(property: SoundContextProperty, value: T) -> (r: SoundContextCommand<T>)
        ensures
            r.property == property,
            r.value == value,
    {
        SoundContextCommand { property, value }
    }

    pub fn name(&self) -> (r: String)
        ensures
            r@ == command_name(self.property),
    {
        match self.property {
            SoundContextProperty::DistanceModel => "Set Distance Model".to_owned(),
            SoundContextProperty::Renderer => "Set Renderer".to_owned(),
        }
    }

    fn swap(&mut self, current: &mut T)
        ensures
            (*final(self), *final(current)) == old(self).swapped(*old(current)),
    {
        core::mem::swap(&mut self.value, current);
    }

    /// Puts the command's value in effect.
    pub fn execute(&mut self, current: &mut T)
        ensures
            (*final(self), *final(current)) == old(self).swapped(*old(current)),
    {
        self.swap(current);
    }

    /// Puts back the value that `execute` replaced.
    pub fn revert(&mut self, current: &mut T)
        ensures
            (*final(self), *final(current)) == old(self).swapped(*old(current)),
    {
        self.swap(current);
    }
}

/// Reverting a command right after executing it leaves both the command and
/// the setting as they were before.
pub proof fn revert_undoes_execute<T>(command: SoundContextCommand<T>, current: T)
    ensures
        ({
            let (executed, changed) = command.swapped(current);
            executed.swapped(changed) == (command, current)
        }),
{
}

} // verus!
