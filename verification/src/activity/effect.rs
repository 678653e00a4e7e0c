//! What the activity asks its host to do.

use crate::browser::Side;
use crate::path::AbsPath;
use crate::transfer::model::{Direction, TransferKind};
use vstd::prelude::*;

verus! {

/// What is asked of the terminal and of the view.
#[derive(Clone, Copy, Debug, PartialEq, Eq, Structural)]
pub enum TerminalOp {
    ClearScreen,
    EnableRawMode,
    DisableRawMode,
    SetupTextEditor,
    InitView,
    Render,
}

/// What is asked for one path.
#[derive(Clone, Copy, Debug, PartialEq, Eq, Structural)]
pub enum PathOp {
    MakeDirectory,
    /// Make the directory that a put-off step waits for.
    MakePendingDirectory,
    NewFile,
    Remove,
    Watch,
    Unwatch,
}

/// What is asked for a pair of paths.
#[derive(Clone, Copy, Debug, PartialEq, Eq, Structural)]
pub enum PairOp {
    /// Rename `from` to `to`.
    Rename,
    /// Copy `from` to `to` on the same side.
    Copy,
    /// Make the link `from` that names `to`.
    Symlink,
}

/// What a listing is asked for.
#[derive(Clone, Copy, Debug, PartialEq, Eq, Structural)]
pub enum ListPurpose {
    /// The pane shows the directory already and is to be brought up to date.
    Refresh,
    /// The pane is to enter the directory.
    Enter,
    /// The pane is to follow the pane across into the directory.
    Mirror,
    /// The directory is searched.
    Search,
}

/// One thing for the host to do. The host answers each with the event that
/// belongs to it.
#[derive(Debug)]
#[allow(inconsistent_fields)]
pub enum Effect {
    Terminal(TerminalOp),
    /// Try once to connect to the remote side.
    Connect,
    /// Close the connection to the remote side.
    Disconnect,
    /// List the directory on the given side.
    List { side: Side, path: AbsPath, purpose: ListPurpose },
    OnPath { op: PathOp, side: Side, path: AbsPath },
    OnPair { op: PairOp, side: Side, from: AbsPath, to: AbsPath },
    /// Run the command on the given side.
    Exec { side: Side, command: String },
    /// Open the file, with the named program where one is given.
    Open { side: Side, path: AbsPath, with: Option<String>, as_text: bool },
    /// Carry out the queue entry at the index: copy the file, or make the
    /// directory at the destination and list its source.
    Transfer { index: usize, kind: TransferKind, direction: Direction, source: AbsPath, dest: AbsPath },
}

/// The mathematical value of an [`Effect`].
#[allow(inconsistent_fields)]
pub enum EffectView {
    Terminal(TerminalOp),
    Connect,
    Disconnect,
    List { side: Side, path: Seq<Seq<char>>, purpose: ListPurpose },
    OnPath { op: PathOp, side: Side, path: Seq<Seq<char>> },
    OnPair { op: PairOp, side: Side, from: Seq<Seq<char>>, to: Seq<Seq<char>> },
    Exec { side: Side, command: Seq<char> },
    Open { side: Side, path: Seq<Seq<char>>, with: Option<Seq<char>>, as_text: bool },
    Transfer {
        index: usize,
        kind: TransferKind,
        direction: Direction,
        source: Seq<Seq<char>>,
        dest: Seq<Seq<char>>,
    },
}

impl View for Effect {
    type V = EffectView;

    open spec fn view(&self) -> EffectView {
        match self {
            Effect::Terminal(op) => EffectView::Terminal(*op),
            Effect::Connect => EffectView::Connect,
            Effect::Disconnect => EffectView::Disconnect,
            Effect::List { side, path, purpose } => EffectView::List {
                side: *side,
                path: path@,
                purpose: *purpose,
            },
            Effect::OnPath { op, side, path } => EffectView::OnPath {
                op: *op,
                side: *side,
                path: path@,
            },
            Effect::OnPair { op, side, from, to } => EffectView::OnPair {
                op: *op,
                side: *side,
                from: from@,
                to: to@,
            },
            Effect::Exec { side, command } => EffectView::Exec { side: *side, command: command@ },
            Effect::Open { side, path, with, as_text } => EffectView::Open {
                side: *side,
                path: path@,
                with: match with {
                    Some(program) => Some(program@),
                    None => None,
                },
                as_text: *as_text,
            },
            Effect::Transfer { index, kind, direction, source, dest } => EffectView::Transfer {
                index: *index,
                kind: *kind,
                direction: *direction,
                source: source@,
                dest: dest@,
            },
        }
    }
}

/// The values of effects, in order.
pub open spec fn effect_views(effects: Seq<Effect>) -> Seq<EffectView> {
    effects.map_values(|e: Effect| e@)
}

} // verus!
