//! The audio side of a track, as far as the rules of a track need it.

use vstd::prelude::*;

verus! {

/// What a track asks of the audio side.
#[derive(Clone, Copy, Debug, PartialEq, Eq, Structural)]
pub enum SinkCommand {
    /// Go on playing.
    Play,
    /// Hold.
    Pause,
    /// Stop the sink and put a new one in its place.  The new sink holds
    /// nothing and is not paused.
    Recreate,
    /// Append the track's file, from its beginning, to what the sink holds.
    Append,
    /// Play the track's file on a sink of its own and let go of that sink: it
    /// plays to its end whatever happens to the track.
    Spawn,
}

/// What holds of a sink at one moment.
#[verifier::ext_equal]
pub struct SinkView {
    /// Whether the sink is held.
    pub paused: bool,
    /// Whether the sink holds nothing to play: nothing was appended to it yet,
    /// or what was appended has been played to its end.
    pub empty: bool,
    /// The commands that were not carried out yet, oldest first.
    pub commands: Seq<SinkCommand>,
}

impl SinkView {
    /// A new sink: not paused, empty, with no command given.
    pub open spec fn new() -> SinkView {
        SinkView { paused: false, empty: true, commands: Seq::empty() }
    }

    /// The sink after it was told to play.
    pub open spec fn play(self) -> SinkView {
        SinkView { paused: false, commands: self.commands.push(SinkCommand::Play), ..self }
    }

    /// The sink after it was told to hold.
    pub open spec fn pause(self) -> SinkView {
        SinkView { paused: true, commands: self.commands.push(SinkCommand::Pause), ..self }
    }

    /// The new sink in the place of this one.
    pub open spec fn recreate(self) -> SinkView {
        SinkView { paused: false, empty: true, commands: self.commands.push(SinkCommand::Recreate) }
    }

    /// The sink after the track's file was appended to it.
    pub open spec fn append(self) -> SinkView {
        SinkView { empty: false, commands: self.commands.push(SinkCommand::Append), ..self }
    }

    /// The sink after a sink of its own was started for the track's file.
    pub open spec fn spawn(self) -> SinkView {
        SinkView { commands: self.commands.push(SinkCommand::Spawn), ..self }
    }

    /// The sink after it has played what it held to the end.
    pub open spec fn end_of_stream(self) -> SinkView {
        SinkView { empty: true, ..self }
    }
}

/// The sink of a track.  It keeps what the track's rules read of the audio
/// sink, whether it is paused and whether it is empty, and the commands that
/// the rules have given.  The program carries the commands out on the audio
/// sink, in their order, and reports when the audio sink has run empty.
pub struct Sink {
    paused: bool,
    empty: bool,
    commands: Vec<SinkCommand>,
}

impl View for Sink {
    type V = SinkView;

    closed spec fn view(&self) -> SinkView {
        SinkView { paused: self.paused, empty: self.empty, commands: self.commands@ }
    }
}

impl Sink {
    /// A new sink: not paused, empty, with no command given.
    pub fn new() -> (sink: Sink)
        ensures
            sink@ == SinkView::new(),
    {
        Sink { paused: false, empty: true, commands: Vec::new() }
    }

    /// Tells the sink to play.
    pub fn play(&mut self)
        ensures
            final(self)@ == old(self)@.play(),
    {
        self.paused = false;
        self.commands.push(SinkCommand::Play);
    }

    /// Tells the sink to hold.
    pub fn pause(&mut self)
        ensures
            final(self)@ == old(self)@.pause(),
    {
        self.paused = true;
        self.commands.push(SinkCommand::Pause);
    }

    /// Stops the sink and puts a new one in its place.
    pub fn recreate(&mut self)
        ensures
            final(self)@ == old(self)@.recreate(),
    {
        self.paused = false;
        self.empty = true;
        self.commands.push(SinkCommand::Recreate);
    }

    /// Appends the track's file to what the sink holds.
    pub fn append(&mut self)
        ensures
            final(self)@ == old(self)@.append(),
    {
        self.empty = false;
        self.commands.push(SinkCommand::Append);
    }

    /// Starts a sink of its own for the track's file and lets go of it.
    pub fn spawn(&mut self)
        ensures
            final(self)@ == old(self)@.spawn(),
    {
        self.commands.push(SinkCommand::Spawn);
    }

    /// Takes note that the audio sink has played what it held to the end.
    pub fn end_of_stream(&mut self)
        ensures
            final(self)@ == old(self)@.end_of_stream(),
    {
        self.empty = true;
    }

    /// Whether the sink is held.
    pub fn is_paused(&self) -> (paused: bool)
        ensures
            paused == self@.paused,
    {
        self.paused
    }

    /// Whether the sink holds nothing to play.
    pub fn empty(&self) -> (empty: bool)
        ensures
            empty == self@.empty,
    {
        self.empty
    }

    /// Hands over the commands that were not carried out yet, oldest first,
    /// and keeps none of them.
    pub fn take_commands(&mut self) -> (commands: Vec<SinkCommand>)
        ensures
            commands@ == old(self)@.commands,
            final(self)@ == (SinkView { commands: Seq::empty(), ..old(self)@ }),
    {
        let mut commands: Vec<SinkCommand> = Vec::new();
        std::mem::swap(&mut self.commands, &mut commands);
        commands
    }
}

} // verus!
