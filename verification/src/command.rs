use vstd::prelude::*;

verus! {

/// A single-use deferred computation of a message.
///
/// Verus does not accept `dyn` function-trait objects, so the boxed
/// callable is hidden behind this opaque struct. `new` stores the
/// callable and `invoke` runs it, exactly once, because `invoke` takes
/// the thunk by value. Nothing is assumed about the message a stored
/// callable returns: it is application code.
#[verifier::external_body]
#[verifier::reject_recursive_types(M)]
pub struct Thunk<M> {
    call: Box<dyn FnOnce() -> M + 'static>,
}

impl<M> Thunk<M> {
    /// Relies on `Box::new`: boxes the callable unchanged. The callable
    /// must be ready to call, so that invoking the thunk later cannot
    /// run it outside its own contract.
    #[verifier::external_body]
    pub fn new<F: FnOnce() -> M + 'static>(fun: F) -> Thunk<M>
        requires
            call_requires(fun, ()),
    {
        Thunk { call: Box::new(fun) }
    }

    /// Relies on `FnOnce::call_once` through the box: runs the stored
    /// callable once and hands its message back; the callable's
    /// precondition was established when the thunk was made.
    #[verifier::external_body]
    pub fn invoke(self) -> M {
        (self.call)()
    }
}

/// One unit of a `Command`: a literal follow-up message, or a deferred
/// computation of one, invoked exactly once at dispatch time.
#[verifier::reject_recursive_types(M)]
pub enum Action<M> {
    Produce(M),
    Compute(Thunk<M>),
}

/// An inert description of what should happen after an application
/// callback returns: enqueue follow-up messages, or terminate the run
/// loop. Constructing a command performs nothing.
#[verifier::reject_recursive_types(M)]
pub enum Command<M> {
    Terminate,
    Empty,
    Single(Action<M>),
    Batch(Vec<Action<M>>),
}

impl<M> Action<M> {
    /// Turn the action into its message: a literal message is handed
    /// back as it is, a deferred computation is invoked now.
    pub fn run(self) -> (message: M)
        ensures
            self is Produce ==> message == self->Produce_0,
    {
        match self {
            Action::Produce(message) => message,
            Action::Compute(thunk) => thunk.invoke(),
        }
    }
}

/// The actions a command contributes to a flattened batch: a `Single`
/// contributes its action, a `Batch` its whole list, and `Terminate`
/// and `Empty` contribute nothing.
pub open spec fn actions_of<M>(command: Command<M>) -> Seq<Action<M>> {
    match command {
        Command::Single(action) => seq![action],
        Command::Batch(actions) => actions@,
        _ => Seq::empty(),
    }
}

/// The concatenation, in order, of the actions of each command in the
/// sequence.
pub open spec fn concat_actions<M>(commands: Seq<Command<M>>) -> Seq<Action<M>>
    decreases commands.len(),
{
    if commands.len() == 0 {
        Seq::empty()
    } else {
        actions_of(commands[0]) + concat_actions(commands.drop_first())
    }
}

/// Law: flattening a sequence of commands yields exactly the
/// concatenation of each command's own actions, in order; `Terminate`
/// and `Empty` commands contribute zero actions.
pub proof fn lemma_concat_actions_is_flatten<M>(commands: Seq<Command<M>>)
    ensures
        concat_actions(commands) == commands.map_values(
            |c: Command<M>| actions_of(c),
        ).flatten(),
    decreases commands.len(),
{
    let mapped = commands.map_values(|c: Command<M>| actions_of(c));
    if commands.len() == 0 {
        assert(mapped.len() == 0);
    } else {
        lemma_concat_actions_is_flatten(commands.drop_first());
        assert(commands.drop_first().map_values(|c: Command<M>| actions_of(c))
            =~= mapped.drop_first());
        assert(mapped.first() == actions_of(commands[0]));
    }
}

impl<M> Command<M> {
    /// A command that asks the runtime loop to terminate.
    pub fn exit() -> (r: Self)
        ensures
            r is Terminate,
            actions_of(r) == Seq::<Action<M>>::empty(),
    {
        Command::Terminate
    }

    /// A command that asks for nothing.
    pub fn none() -> (r: Self)
        ensures
            r is Empty,
            actions_of(r) == Seq::<Action<M>>::empty(),
    {
        Command::Empty
    }

    /// A command that enqueues the given message: a single literal
    /// action carrying it.
    pub fn send(message: M) -> (r: Self)
        ensures
            r is Single,
            actions_of(r) == seq![Action::Produce(message)],
    {
        let r = Command::Single(Action::Produce(message));
        proof {
            assert(actions_of(r) =~= seq![Action::<M>::Produce(message)]);
        }
        r
    }

    /// A command that computes a message at dispatch time, a single
    /// deferred action: the callable is not invoked here, only at
    /// dispatch, exactly once, on the runtime thread.
    pub fn sync<F: FnOnce() -> M + 'static>(fun: F) -> (r: Self)
        requires
            call_requires(fun, ()),
        ensures
            r is Single,
            actions_of(r).len() == 1,
            actions_of(r)[0] is Compute,
    {
        let r = Command::Single(Action::Compute(Thunk::new(fun)));
        proof {
            assert(actions_of(r) =~= seq![actions_of(r)[0]]);
        }
        r
    }

    /// Flatten the given commands into one batch whose actions are the
    /// concatenation of each input's actions, in order. `Terminate` and
    /// `Empty` inputs contribute nothing, so a batch never terminates
    /// the loop.
    pub fn batch(commands: Vec<Command<M>>) -> (r: Self)
        ensures
            r is Batch,
            actions_of(r) == concat_actions(commands@),
    {
        let ghost all = commands@;
        let mut rest = commands;
        let mut flat: Vec<Action<M>> = Vec::new();
        proof {
            assert(flat@ + concat_actions(rest@) =~= concat_actions(all));
        }
        while rest.len() > 0
            invariant
                flat@ + concat_actions(rest@) == concat_actions(all),
            decreases rest.len(),
        {
            let command = rest.remove(0);
            let ghost rest_before = seq![command] + rest@;
            proof {
                assert(rest_before.drop_first() =~= rest@);
                assert(concat_actions(rest_before)
                    == actions_of(command) + concat_actions(rest@));
            }
            let mut acts = command.actions();
            flat.append(&mut acts);
            proof {
                assert(flat@ + concat_actions(rest@) =~= concat_actions(all));
            }
        }
        proof {
            assert(flat@ =~= concat_actions(all));
        }
        Command::Batch(flat)
    }

    /// The actions this command contributes to a batch.
    pub fn actions(self) -> (r: Vec<Action<M>>)
        ensures
            r@ == actions_of(self),
    {
        let ghost orig = self;
        match self {
            Command::Single(action) => {
                let mut r = Vec::new();
                r.push(action);
                proof {
                    assert(r@ =~= actions_of(orig));
                }
                r
            },
            Command::Batch(actions) => actions,
            Command::Terminate => Vec::new(),
            Command::Empty => Vec::new(),
        }
    }
}

} // verus!
