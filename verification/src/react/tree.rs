use vstd::prelude::*;
use crate::ids::CallbackId;
use crate::react::types::{ReactCommand, ReactionInput};

verus! {

/// What the world must do next to run the reaction tree.
#[derive(Debug, Copy, Clone, PartialEq, Eq, Structural)]
pub enum ReactStep {
    /// Run this reactor; the commands it queues form a new level, applied before anything queued earlier.
    Run { callback: CallbackId, input: ReactionInput },
    /// Apply this (non-reaction) command.
    Apply(ReactCommand),
    /// A level was used up: react to removals and despawns now (their reactions, if any, form a new level).
    Finished,
    /// Nothing is left to do.
    Idle,
}

/// The step for the next command of a level: reactions are run, other commands applied.
pub open spec fn step_for(cmd: ReactCommand) -> ReactStep {
    match cmd {
        ReactCommand::Reaction { callback, input } => ReactStep::Run { callback: callback, input: input },
        _ => ReactStep::Apply(cmd),
    }
}

/// The levels after taking one step: the next command of the deepest level is taken (a reaction opens a new,
/// empty level for its own commands); a used-up level above the root is closed.
pub open spec fn spec_step(levels: Seq<Seq<ReactCommand>>) -> (ReactStep, Seq<Seq<ReactCommand>>) {
    if levels.len() == 0 {
        (ReactStep::Idle, levels)
    } else if levels.last().len() > 0 {
        let cmd = levels.last()[0];
        let rest = levels.update(levels.len() - 1, levels.last().drop_first());
        if cmd is Reaction {
            (step_for(cmd), rest.push(Seq::empty()))
        } else {
            (step_for(cmd), rest)
        }
    } else if levels.len() > 1 {
        (ReactStep::Finished, levels.drop_last())
    } else {
        (ReactStep::Idle, levels)
    }
}

/// The reaction tree: a stack of command queues. The root level holds the commands queued outside any reaction;
/// each running reaction has a level above it for the commands it queued. Commands run depth first: a reaction's
/// own commands (and the reactions to removals and despawns after it) run before the next command queued before
/// it.
pub struct ReactionTree {
    levels: Vec<Vec<ReactCommand>>,
}

impl View for ReactionTree {
    type V = Seq<Seq<ReactCommand>>;

    closed spec fn view(&self) -> Seq<Seq<ReactCommand>> {
        self.levels@.map_values(|l: Vec<ReactCommand>| l@)
    }
}

impl ReactionTree {
    /// A tree with an empty root level.
    pub fn new() -> (res: Self)
        ensures
            res@ == seq![Seq::<ReactCommand>::empty()],
    {
        let mut levels: Vec<Vec<ReactCommand>> = Vec::new();
        levels.push(Vec::new());
        let res = ReactionTree { levels };
        assert(res@ =~= seq![Seq::<ReactCommand>::empty()]);
        res
    }

    /// Queue commands at the end of the deepest level (they form the root level if there is none).
    pub fn enqueue(&mut self, cmds: Vec<ReactCommand>)
        ensures
            old(self)@.len() == 0 ==> final(self)@ == seq![cmds@],
            old(self)@.len() > 0 ==> final(self)@ == old(self)@.update(
                old(self)@.len() - 1,
                old(self)@.last() + cmds@,
            ),
    {
        let mut cmds = cmds;
        let ghost added = cmds@;
        let n = self.levels.len();
        if n == 0 {
            self.levels.push(cmds);
            assert(self@ =~= seq![added]);
            return;
        }
        let mut top = self.levels.pop().unwrap();
        let ghost t = top@;
        top.append(&mut cmds);
        self.levels.push(top);
        assert(self@ =~= old(self)@.update(old(self)@.len() - 1, old(self)@.last() + added)) by {
            assert(self.levels@[n - 1]@ == t + added);
        }
    }

    /// Open a new deepest level holding `cmds`, to run before everything queued so far.
    pub fn begin_level(&mut self, cmds: Vec<ReactCommand>)
        ensures
            final(self)@ == old(self)@.push(cmds@),
    {
        self.levels.push(cmds);
        assert(self@ =~= old(self)@.push(cmds@));
    }

    /// Take the next step of the tree.
    pub fn step(&mut self) -> (res: ReactStep)
        ensures
            (res, final(self)@) == spec_step(old(self)@),
    {
        let n = self.levels.len();
        if n == 0 {
            return ReactStep::Idle;
        }
        if self.levels[n - 1].len() > 0 {
            let mut top = self.levels.pop().unwrap();
            let ghost t = top@;
            let cmd = top.remove(0);
            self.levels.push(top);
            assert(t.drop_first() =~= self.levels@[n - 1]@);
            assert(self@ =~= old(self)@.update(n - 1, old(self)@.last().drop_first()));
            match cmd {
                ReactCommand::Reaction { callback, input } => {
                    self.levels.push(Vec::new());
                    assert(self@ =~= old(self)@.update(n - 1, old(self)@.last().drop_first()).push(Seq::empty()));
                    ReactStep::Run { callback, input }
                },
                _ => ReactStep::Apply(cmd),
            }
        } else if n > 1 {
            self.levels.pop();
            assert(self@ =~= old(self)@.drop_last());
            ReactStep::Finished
        } else {
            ReactStep::Idle
        }
    }
}

/// A reaction's own commands run before the commands queued before it: right after a reaction is taken from a
/// level and the commands it queued are added, the next step takes the first of those commands, and the rest of
/// the level the reaction came from is left untouched below.
pub proof fn lemma_reaction_commands_run_first(
    levels: Seq<Seq<ReactCommand>>,
    callback: CallbackId,
    input: ReactionInput,
    rest: Seq<ReactCommand>,
    queued: Seq<ReactCommand>,
)
    requires
        levels.len() > 0,
        levels.last() == seq![ReactCommand::Reaction { callback: callback, input: input }] + rest,
        queued.len() > 0,
    ensures
        ({
            let (s1, l1) = spec_step(levels);
            let l2 = l1.update(l1.len() - 1, l1.last() + queued);
            let (s2, l3) = spec_step(l2);
            &&& s1 == ReactStep::Run { callback: callback, input: input }
            &&& s2 == step_for(queued[0])
            &&& l3.len() >= levels.len()
            &&& l3[levels.len() - 1] == rest
            &&& forall|i: int| 0 <= i < levels.len() - 1 ==> l3[i] == levels[i]
        }),
{
    let r = ReactCommand::Reaction { callback: callback, input: input };
    assert(levels.last()[0] == r);
    assert(levels.last().drop_first() =~= rest);
    let (s1, l1) = spec_step(levels);
    assert(l1.last() =~= Seq::<ReactCommand>::empty());
    let l2 = l1.update(l1.len() - 1, l1.last() + queued);
    assert(l2.last() =~= queued);
}

/// A level is only closed once it is used up, and closing it hands control back to the level below, unchanged:
/// a step never touches a level below the deepest one except by closing an empty deepest level.
pub proof fn lemma_step_keeps_lower_levels(levels: Seq<Seq<ReactCommand>>)
    ensures
        ({
            let (s, l) = spec_step(levels);
            &&& forall|i: int| 0 <= i < levels.len() - 1 ==> l[i] == levels[i]
            &&& s == ReactStep::Finished ==> levels.len() > 1 && levels.last().len() == 0 && l == levels.drop_last()
            &&& s == ReactStep::Idle ==> l == levels && (levels.len() == 0 || (levels.len() == 1
                && levels[0].len() == 0))
        }),
{
}

} // verus!
