//! What the menu buttons decide.

use vstd::prelude::*;

verus! {

/// How the pointer relates to a button.
#[derive(Clone, Copy, Debug, PartialEq, Eq, Structural)]
pub enum Interaction {
    Pressed,
    Hovered,
    Away,
}

/// Whether the menu music plays.
#[derive(Clone, Copy, Debug, PartialEq, Eq, Structural)]
pub enum AudioStatus {
    Stopped,
    Playing,
}

/// The button that turns the menu music on and off.
#[derive(Clone, Copy, Debug, PartialEq, Eq)]
pub struct AudioButton(pub AudioStatus);

/// A button that sends the application to the phase `action` when pressed.
#[derive(Debug, PartialEq, Eq)]
pub struct StateOnPress<S> {
    pub action: S,
}

impl Default for AudioStatus {
    fn default() -> (s: AudioStatus)
        ensures
            s == AudioStatus::Stopped,
    {
        AudioStatus::Stopped
    }
}

impl Default for AudioButton {
    fn default() -> (b: AudioButton)
        ensures
            b.0 == AudioStatus::Stopped,
    {
        AudioButton(AudioStatus::Stopped)
    }
}

impl AudioStatus {
    /// The other status.
    pub open spec fn toggled(self) -> AudioStatus {
        match self {
            AudioStatus::Playing => AudioStatus::Stopped,
            AudioStatus::Stopped => AudioStatus::Playing,
        }
    }
}

impl AudioButton {
    /// Reacts to the pointer: a press flips the status, anything else
    /// leaves it.
    pub fn interact(&mut self, interaction: Interaction)
        ensures
            final(self).0 == if interaction == Interaction::Pressed {
                old(self).0.toggled()
            } else {
                old(self).0
            },
    {
        match interaction {
            Interaction::Pressed => {
                self.0 = match self.0 {
                    AudioStatus::Playing => AudioStatus::Stopped,
                    AudioStatus::Stopped => AudioStatus::Playing,
                };
            },
            _ => {},
        }
    }
}

/// Whether the music plays after this tick: a changed audio button flips
/// the playback, whichever status it now shows.
pub fn check_audio_playback(playing: bool, changed: Option<AudioButton>) -> (now: bool)
    ensures
        now == if changed is Some {
            !playing
        } else {
            playing
        },
{
    match changed {
        Some(_) => !playing,
        None => playing,
    }
}

/// The phase asked for by the first `n` buttons: that of the last one
/// among them that is pressed.
pub open spec fn pressed_action<S>(buttons: Seq<(Interaction, StateOnPress<S>)>, n: int) -> Option<S>
    decreases n,
{
    if n <= 0 {
        None
    } else if buttons[n - 1].0 == Interaction::Pressed {
        Some(buttons[n - 1].1.action)
    } else {
        pressed_action(buttons, n - 1)
    }
}

/// Goes through the buttons whose interaction changed and returns the
/// phase to go to, if one of them was pressed. Where several were pressed
/// the last one wins.
pub fn action_on_press<S: Copy>(buttons: &Vec<(Interaction, StateOnPress<S>)>) -> (next: Option<S>)
    ensures
        next == pressed_action(buttons@, buttons@.len() as int),
{
    let mut next: Option<S> = None;
    let mut i: usize = 0;
    while i < buttons.len()
        invariant
            i <= buttons@.len(),
            next == pressed_action(buttons@, i as int),
        decreases buttons@.len() - i,
    {
        match buttons[i].0 {
            Interaction::Pressed => {
                next = Some(buttons[i].1.action);
            },
            _ => {},
        }
        i += 1;
    }
    next
}

} // verus!
