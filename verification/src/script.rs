//! Invocations of the queue's server-side scripts: which script, with which
//! keys and which arguments, in order.
use vstd::prelude::*;

verus! {

/// The server-side scripts of the queue.
#[derive(Clone, Copy, Debug, PartialEq, Eq, Structural)]
pub enum Script {
    /// Moves due jobs to the worker and hands back their data.
    FetchNext,
    /// Hands back one task by its identifier.
    FetchById,
    /// Records the results of finished tasks.
    HandleResults,
    /// Records a worker's heartbeat.
    KeepAlive,
    /// Lists the tasks of one queue.
    ListTasks,
    /// Lists the tasks of all queues.
    ListAllTasks,
    /// Lists the workers of one queue.
    ListWorkers,
    /// Lists the workers of all queues.
    ListAllWorkers,
    /// Statistics over several queues.
    Overview,
    /// Statistics of one queue.
    OverviewByQueue,
    /// Queues a batch of tasks.
    BatchPush,
    /// Re-queues the tasks of workers that stopped sending heartbeats.
    ReenqueueOrphaned,
    /// Registers a worker.
    RegisterWorker,
    /// Locks tasks for a worker.
    AcquireLeases,
    /// Extends a worker's locks.
    RenewLeases,
    /// Releases a worker's locks and re-queues the tasks.
    ReleaseLeases,
    /// Removes finished tasks.
    Vacuum,
}

/// An argument of a script.
#[derive(Clone, Debug)]
pub enum ScriptArg {
    /// Text.
    Text(String),
    /// Raw bytes.
    Bytes(Vec<u8>),
    /// An unsigned integer, sent in decimal.
    Int(u64),
    /// A flag.
    Flag(bool),
}

/// An argument as its contents.
pub enum ArgView {
    Text(Seq<char>),
    Bytes(Seq<u8>),
    Int(u64),
    Flag(bool),
}

impl View for ScriptArg {
    type V = ArgView;

    open spec fn view(&self) -> ArgView {
        match self {
            ScriptArg::Text(s) => ArgView::Text(s@),
            ScriptArg::Bytes(b) => ArgView::Bytes(b@),
            ScriptArg::Int(n) => ArgView::Int(*n),
            ScriptArg::Flag(b) => ArgView::Flag(*b),
        }
    }
}

/// One invocation of a script.
#[derive(Clone, Debug)]
pub struct ScriptCall {
    /// The script to run.
    pub script: Script,
    /// The keys it touches, in order.
    pub keys: Vec<String>,
    /// Its arguments, in order.
    pub args: Vec<ScriptArg>,
}

/// Texts as their characters.
pub open spec fn texts_view(texts: Seq<String>) -> Seq<Seq<char>> {
    texts.map_values(|s: String| s@)
}

/// Arguments as their contents.
pub open spec fn args_view(args: Seq<ScriptArg>) -> Seq<ArgView> {
    args.map_values(|a: ScriptArg| a@)
}

impl ScriptCall {
    /// The keys as their characters.
    pub open spec fn keys_view(&self) -> Seq<Seq<char>> {
        texts_view(self.keys@)
    }

    /// The arguments as their contents.
    pub open spec fn args_view(&self) -> Seq<ArgView> {
        args_view(self.args@)
    }

    /// An invocation of `script` with no keys and no arguments yet.
    pub fn new(script: Script) -> (c: ScriptCall)
        ensures
            c.script == script,
            c.keys_view() == Seq::<Seq<char>>::empty(),
            c.args_view() == Seq::<ArgView>::empty(),
    {
        let c = ScriptCall { script, keys: Vec::new(), args: Vec::new() };
        assert(c.keys_view() =~= Seq::<Seq<char>>::empty());
        assert(c.args_view() =~= Seq::<ArgView>::empty());
        c
    }

    /// Adds a key after the others.
    pub fn key(&mut self, key: String)
        ensures
            final(self).script == old(self).script,
            final(self).keys_view() == old(self).keys_view().push(key@),
            final(self).args_view() == old(self).args_view(),
    {
        let ghost k = key@;
        self.keys.push(key);
        assert(self.keys_view() =~= old(self).keys_view().push(k));
    }

    /// Adds an argument after the others.
    pub fn arg(&mut self, arg: ScriptArg)
        ensures
            final(self).script == old(self).script,
            final(self).keys_view() == old(self).keys_view(),
            final(self).args_view() == old(self).args_view().push(arg@),
    {
        let ghost a = arg@;
        self.args.push(arg);
        assert(self.args_view() =~= old(self).args_view().push(a));
    }
}

} // verus!
