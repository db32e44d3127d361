//! The pipeline orchestrator as a state machine.
//!
//! The launching process asks `next_step` what to do. For `CreatePipe` it
//! creates a pipe and reports its descriptors; for `Fork` it forks, and then
//! the parent performs what `parent_forked` returns, while the child performs
//! what `child_ops` returns (ending in the replacement of its image). Once the
//! step is `Done`, `process_states` yields one state per stage.

use vstd::prelude::*;

use crate::data::{chain_wf, cmds_view, strs_view, ChainModel, CmdChain, ProcessState, StageModel};
use crate::pipe::{
    fresh, read_claim_ops, release_ops, write_claim_ops, FdOp, Pipe, PipeModel, STDIN_FILENO,
    STDOUT_FILENO,
};

verus! {

/// What the launching process does next.
#[derive(Debug, Clone, Copy, PartialEq, Eq, Structural)]
pub enum LaunchStep {
    /// Create a pipe and report its descriptors with `pipe_created`.
    CreatePipe,
    /// Fork the current stage.
    Fork,
    /// Every stage is launched.
    Done,
}

/// An operation that a freshly forked child performs, in order.
#[derive(Debug, PartialEq, Eq)]
pub enum ChildOp {
    /// Open the path read-only and make it standard input.
    RedirectInput(String),
    /// Open or create the path for writing, truncated, and make it standard output.
    RedirectOutput(String),
    /// An operation on the descriptors of a pipe.
    Fd(FdOp),
    /// Replace the process image with the executable and these arguments.
    Exec { executable: String, args: Vec<String> },
}

/// Mathematical model of a child's operation.
pub enum ChildOpModel {
    RedirectInput(Seq<char>),
    RedirectOutput(Seq<char>),
    Fd(FdOp),
    Exec(Seq<char>, Seq<Seq<char>>),
}

/// The model of a child's operation.
pub open spec fn child_op_view(o: ChildOp) -> ChildOpModel {
    match o {
        ChildOp::RedirectInput(p) => ChildOpModel::RedirectInput(p@),
        ChildOp::RedirectOutput(p) => ChildOpModel::RedirectOutput(p@),
        ChildOp::Fd(op) => ChildOpModel::Fd(op),
        ChildOp::Exec { executable, args } => ChildOpModel::Exec(executable@, strs_view(args@)),
    }
}

/// The models of a sequence of child operations.
pub open spec fn child_ops_view(v: Seq<ChildOp>) -> Seq<ChildOpModel> {
    v.map_values(|o: ChildOp| child_op_view(o))
}

/// The descriptor operations of a sequence, lifted to child operations.
pub open spec fn fd_part(ops: Seq<FdOp>) -> Seq<ChildOpModel> {
    ops.map_values(|op: FdOp| ChildOpModel::Fd(op))
}

/// The input redirect of a stage, where it is first and has one.
pub open spec fn input_part(s: StageModel) -> Seq<ChildOpModel> {
    if s.is_first && s.in_red_path is Some {
        seq![ChildOpModel::RedirectInput(s.in_red_path->Some_0)]
    } else {
        Seq::empty()
    }
}

/// The output redirect of a stage, where it is last and has one.
pub open spec fn output_part(s: StageModel) -> Seq<ChildOpModel> {
    if s.is_last && s.out_red_path is Some {
        seq![ChildOpModel::RedirectOutput(s.out_red_path->Some_0)]
    } else {
        Seq::empty()
    }
}

/// Claiming the pipe that feeds a stage as its read end, if there is one.
pub open spec fn upstream_part(up: Option<PipeModel>) -> Seq<ChildOpModel> {
    match up {
        Some(p) => fd_part(read_claim_ops(p)),
        None => Seq::empty(),
    }
}

/// Claiming the pipe that a stage feeds as its write end, if there is one.
pub open spec fn downstream_part(down: Option<PipeModel>) -> Seq<ChildOpModel> {
    match down {
        Some(p) => fd_part(write_claim_ops(p)),
        None => Seq::empty(),
    }
}

/// What the child of a stage performs: its input redirect, its output
/// redirect, the claim of the pipe that feeds it, the claim of the pipe that
/// it feeds, and at last the replacement of its image.
pub open spec fn child_plan(s: StageModel, up: Option<PipeModel>, down: Option<PipeModel>) -> Seq<
    ChildOpModel,
> {
    input_part(s) + output_part(s) + upstream_part(up) + downstream_part(down) + seq![
        ChildOpModel::Exec(s.executable, s.args),
    ]
}

/// Whether an operation makes `fd` the standard stream of the child.
pub open spec fn wires(o: ChildOpModel, fd: i32) -> bool {
    match o {
        ChildOpModel::RedirectInput(_) => fd == STDIN_FILENO,
        ChildOpModel::RedirectOutput(_) => fd == STDOUT_FILENO,
        ChildOpModel::Fd(FdOp::Dup2 { from: _, onto }) => onto == fd,
        _ => false,
    }
}

/// Mathematical model of a launch in progress.
pub struct LauncherModel {
    /// The number of stages.
    pub len: nat,
    /// The index of the stage that is launched next.
    pub stage: nat,
    /// The pipe that feeds the current stage.
    pub upstream: Option<PipeModel>,
    /// The pipe that the current stage feeds.
    pub downstream: Option<PipeModel>,
    /// The process ids of the launched stages, in stage order.
    pub pids: Seq<i32>,
    /// The (read, write) descriptors of every pipe created so far, in order.
    pub pipes: Seq<(i32, i32)>,
}

/// The descriptors of a pipe.
pub open spec fn fds_of(p: PipeModel) -> (i32, i32) {
    (p.read_fd, p.write_fd)
}

/// The states that a launch goes through: pipe number `k` connects stage `k`
/// with stage `k + 1`, it is created just before stage `k` is forked, and the
/// launching process releases its copy just after stage `k + 1` is forked.
pub open spec fn launcher_wf(m: LauncherModel) -> bool {
    &&& 0 < m.len
    &&& m.stage <= m.len
    &&& m.pids.len() == m.stage
    &&& m.pipes.len() == if m.downstream is Some {
        (m.stage + 1) as int
    } else if m.stage == m.len {
        m.len - 1
    } else {
        m.stage as int
    }
    &&& (m.upstream is Some <==> 0 < m.stage < m.len)
    &&& (m.upstream matches Some(p) ==> fresh(p) && fds_of(p) == m.pipes[m.stage - 1])
    &&& (m.downstream matches Some(p) ==> m.stage + 1 < m.len && fresh(p) && fds_of(p)
        == m.pipes[m.stage as int])
}

/// The next step of a launch.
pub open spec fn step_of(m: LauncherModel) -> LaunchStep {
    if m.stage == m.len {
        LaunchStep::Done
    } else if m.stage + 1 < m.len && m.downstream is None {
        LaunchStep::CreatePipe
    } else {
        LaunchStep::Fork
    }
}

/// The pipe that feeds the current stage after the child claimed its read end.
pub open spec fn read_claimed(up: Option<PipeModel>) -> Option<PipeModel> {
    match up {
        Some(p) => Some(PipeModel { locked: true, write_closed: true, ..p }),
        None => None,
    }
}

/// The pipe that the current stage feeds after the child claimed its write end.
pub open spec fn write_claimed(down: Option<PipeModel>) -> Option<PipeModel> {
    match down {
        Some(p) => Some(PipeModel { locked: true, read_closed: true, ..p }),
        None => None,
    }
}

/// Releasing an optional pipe.
pub open spec fn release_opt(p: Option<PipeModel>) -> Seq<FdOp> {
    match p {
        Some(p) => release_ops(p),
        None => Seq::empty(),
    }
}

/// The model of an optional pipe.
pub open spec fn opt_pipe_view(p: Option<Pipe>) -> Option<PipeModel> {
    match p {
        Some(p) => Some(p@),
        None => None,
    }
}

/// The launch of a chain, one stage after the other.
pub struct Launcher {
    len: usize,
    stage: usize,
    upstream: Option<Pipe>,
    downstream: Option<Pipe>,
    pids: Vec<i32>,
    pipes: Ghost<Seq<(i32, i32)>>,
}

impl View for Launcher {
    type V = LauncherModel;

    closed spec fn view(&self) -> LauncherModel {
        LauncherModel {
            len: self.len as nat,
            stage: self.stage as nat,
            upstream: opt_pipe_view(self.upstream),
            downstream: opt_pipe_view(self.downstream),
            pids: self.pids@,
            pipes: self.pipes@,
        }
    }
}

impl Launcher {
    /// The launch of a chain before anything is created.
    pub fn new(chain: &CmdChain) -> (r: Self)
        ensures
            r@ == (LauncherModel {
                len: chain@.cmds.len(),
                stage: 0,
                upstream: None,
                downstream: None,
                pids: Seq::empty(),
                pipes: Seq::empty(),
            }),
            launcher_wf(r@),
    {
        let len = chain.length();
        let r = Launcher {
            len,
            stage: 0,
            upstream: None,
            downstream: None,
            pids: Vec::new(),
            pipes: Ghost(Seq::empty()),
        };
        assert(r.pids@ =~= Seq::empty());
        r
    }

    /// What to do next: create the pipe that the current stage feeds, if it
    /// is not the last and that pipe does not exist yet; else fork the current
    /// stage; once every stage is forked, nothing.
    pub fn next_step(&self) -> (r: LaunchStep)
        requires
            launcher_wf(self@),
        ensures
            r == step_of(self@),
    {
        if self.stage == self.len {
            LaunchStep::Done
        } else if self.stage + 1 < self.len && self.downstream.is_none() {
            LaunchStep::CreatePipe
        } else {
            LaunchStep::Fork
        }
    }

    /// Records the pipe that the operating system created for the current
    /// stage to feed.
    pub fn pipe_created(&mut self, read_fd: i32, write_fd: i32)
        requires
            launcher_wf(old(self)@),
            step_of(old(self)@) == LaunchStep::CreatePipe,
        ensures
            final(self)@ == (LauncherModel {
                downstream: Some(
                    PipeModel {
                        read_fd,
                        write_fd,
                        locked: false,
                        read_closed: false,
                        write_closed: false,
                    },
                ),
                pipes: old(self)@.pipes.push((read_fd, write_fd)),
                ..old(self)@
            }),
            launcher_wf(final(self)@),
    {
        self.downstream = Some(Pipe::new(read_fd, write_fd));
        self.pipes = Ghost(self.pipes@.push((read_fd, write_fd)));
    }

    /// What the child of the current stage performs: `child_plan` of the
    /// stage and its two pipes. The child's copies of the pipes are claimed.
    pub fn child_ops(&mut self, chain: &CmdChain) -> (r: Vec<ChildOp>)
        requires
            launcher_wf(old(self)@),
            step_of(old(self)@) == LaunchStep::Fork,
            chain@.cmds.len() == old(self)@.len,
        ensures
            child_ops_view(r@) == child_plan(
                chain@.cmds[old(self)@.stage as int],
                old(self)@.upstream,
                old(self)@.downstream,
            ),
            final(self)@ == (LauncherModel {
                upstream: read_claimed(old(self)@.upstream),
                downstream: write_claimed(old(self)@.downstream),
                ..old(self)@
            }),
    {
        let cmds = chain.cmds();
        let cmd = &cmds[self.stage];
        let ghost s = chain@.cmds[self.stage as int];
        assert(cmd@ == s) by {
            assert(cmds_view(cmds@)[self.stage as int] == cmds@[self.stage as int]@);
        }
        let ghost up = opt_pipe_view(self.upstream);
        let ghost down = opt_pipe_view(self.downstream);
        let mut ops: Vec<ChildOp> = Vec::new();
        // an input redirect only for the first stage
        if cmd.is_first() {
            match cmd.in_red_path() {
                Some(path) => ops.push(ChildOp::RedirectInput(path.clone())),
                None => {},
            }
        }
        assert(child_ops_view(ops@) =~= input_part(s));
        // an output redirect only for the last stage
        if cmd.is_last() {
            match cmd.out_red_path() {
                Some(path) => ops.push(ChildOp::RedirectOutput(path.clone())),
                None => {},
            }
        }
        assert(child_ops_view(ops@) =~= input_part(s) + output_part(s));
        let ghost before_up = child_ops_view(ops@);
        match &mut self.upstream {
            Some(p) => {
                let claim = p.as_read_end();
                ops.push(ChildOp::Fd(claim[0]));
                ops.push(ChildOp::Fd(claim[1]));
            },
            None => {},
        }
        assert(child_ops_view(ops@) =~= before_up + upstream_part(up));
        let ghost before_down = child_ops_view(ops@);
        match &mut self.downstream {
            Some(p) => {
                let claim = p.as_write_end();
                ops.push(ChildOp::Fd(claim[0]));
                ops.push(ChildOp::Fd(claim[1]));
            },
            None => {},
        }
        assert(child_ops_view(ops@) =~= before_down + downstream_part(down));
        let ghost before_exec = child_ops_view(ops@);
        let executable = cmd.executable().to_owned();
        let args = clone_args(cmd.args());
        ops.push(ChildOp::Exec { executable, args });
        assert(child_ops_view(ops@) =~= before_exec + seq![ChildOpModel::Exec(s.executable, s.args)]);
        ops
    }

    /// Records the process id of the current stage's child, and returns what
    /// the launching process performs then: it releases both ends of the pipe
    /// that feeds the stage, which it never uses, so that the reader sees the
    /// end of the stream once the writer is done. The next stage becomes
    /// current, fed by the pipe that this one feeds.
    pub fn parent_forked(&mut self, pid: i32) -> (r: Vec<FdOp>)
        requires
            launcher_wf(old(self)@),
            step_of(old(self)@) == LaunchStep::Fork,
        ensures
            r@ == release_opt(old(self)@.upstream),
            final(self)@ == (LauncherModel {
                stage: old(self)@.stage + 1,
                upstream: old(self)@.downstream,
                downstream: None,
                pids: old(self)@.pids.push(pid),
                ..old(self)@
            }),
            launcher_wf(final(self)@),
    {
        self.pids.push(pid);
        let ops = match &mut self.upstream {
            Some(p) => p.parent_close_all(),
            None => Vec::new(),
        };
        assert(ops@ =~= release_opt(old(self)@.upstream));
        self.upstream = self.downstream.take();
        self.stage = self.stage + 1;
        ops
    }

    /// Releases every pipe end that this process still holds; for a launch
    /// that is given up half-way, and idempotent.
    pub fn release_all(&mut self) -> (r: Vec<FdOp>)
        ensures
            r@ == release_opt(old(self)@.upstream) + release_opt(old(self)@.downstream),
            final(self)@.upstream == (match old(self)@.upstream {
                Some(p) => Some(PipeModel { read_closed: true, write_closed: true, ..p }),
                None => None,
            }),
            final(self)@.downstream == (match old(self)@.downstream {
                Some(p) => Some(PipeModel { read_closed: true, write_closed: true, ..p }),
                None => None,
            }),
            final(self)@.stage == old(self)@.stage,
            final(self)@.pids == old(self)@.pids,
            final(self)@.pipes == old(self)@.pipes,
    {
        let mut ops = match &mut self.upstream {
            Some(p) => p.parent_close_all(),
            None => Vec::new(),
        };
        let mut more = match &mut self.downstream {
            Some(p) => p.parent_close_all(),
            None => Vec::new(),
        };
        ops.append(&mut more);
        ops
    }

    /// One state per launched stage, in stage order, none finished yet.
    pub fn process_states(&self, chain: &CmdChain) -> (r: Vec<ProcessState>)
        requires
            launcher_wf(self@),
            step_of(self@) == LaunchStep::Done,
            chain@.cmds.len() == self@.len,
        ensures
            r@.len() == self@.len,
            forall|i: int|
                0 <= i < r@.len() ==> (#[trigger] r@[i])@.executable == chain@.cmds[i].executable
                    && r@[i]@.pid == self@.pids[i] && !r@[i]@.finished,
    {
        let cmds = chain.cmds();
        let mut r: Vec<ProcessState> = Vec::new();
        let mut i: usize = 0;
        while i < self.pids.len()
            invariant
                i <= self.pids.len(),
                self.pids.len() == self.len,
                cmds_view(cmds@) == chain@.cmds,
                cmds@.len() == self.len,
                r@.len() == i,
                forall|j: int|
                    0 <= j < i ==> (#[trigger] r@[j])@.executable == chain@.cmds[j].executable
                        && r@[j]@.pid == self.pids@[j] && !r@[j]@.finished,
            decreases self.pids.len() - i,
        {
            assert(cmds_view(cmds@)[i as int] == cmds@[i as int]@);
            let executable = cmds[i].executable().to_owned();
            r.push(ProcessState::new(executable, self.pids[i]));
            i = i + 1;
        }
        r
    }
}

/// A chain of one stage uses no pipe: in every state of its launch no pipe has
/// been created and none feeds or is fed by the stage, the stage is both first
/// and last, and its child performs no operation on a pipe descriptor.
pub proof fn lemma_single_stage_uses_no_pipe(chain: ChainModel, m: LauncherModel)
    requires
        chain_wf(chain),
        chain.cmds.len() == 1,
        launcher_wf(m),
        m.len == 1,
    ensures
        m.pipes.len() == 0,
        m.upstream is None,
        m.downstream is None,
        chain.cmds[0].is_first,
        chain.cmds[0].is_last,
        forall|k: int|
            0 <= k < child_plan(chain.cmds[0], m.upstream, m.downstream).len() ==> !(
            #[trigger] child_plan(chain.cmds[0], m.upstream, m.downstream)[k] is Fd),
{
    let s = chain.cmds[0];
    let plan = child_plan(s, m.upstream, m.downstream);
    assert(upstream_part(m.upstream) =~= Seq::empty());
    assert(downstream_part(m.downstream) =~= Seq::empty());
    assert forall|k: int| 0 <= k < plan.len() implies !(#[trigger] plan[k] is Fd) by {
        let front = input_part(s) + output_part(s);
        assert(plan =~= front + seq![ChildOpModel::Exec(s.executable, s.args)]);
        if k < front.len() {
            assert(plan[k] == front[k]);
            if k < input_part(s).len() {
            } else {
                assert(front[k] == output_part(s)[k - input_part(s).len()]);
            }
        }
    }
}

/// A launch of a chain of N > 1 stages creates exactly N - 1 pipes: once every
/// stage is forked, `pipes` (which only `pipe_created` extends) has N - 1
/// entries.
pub proof fn lemma_launch_creates_len_minus_one_pipes(m: LauncherModel)
    requires
        launcher_wf(m),
        m.len > 1,
        step_of(m) == LaunchStep::Done,
    ensures
        m.pipes.len() == m.len - 1,
{
}

/// The child of an interior stage `i` gets its standard input from exactly one
/// pipe, pipe `i - 1` (a duplicate of its read end), and its standard output
/// from exactly one other pipe, pipe `i` (a duplicate of its write end); no
/// other operation of the child touches either standard stream.
pub proof fn lemma_interior_stage_wiring(chain: ChainModel, m: LauncherModel)
    requires
        chain_wf(chain),
        launcher_wf(m),
        m.len == chain.cmds.len(),
        step_of(m) == LaunchStep::Fork,
        0 < m.stage,
        m.stage + 1 < m.len,
    ensures
        ({
            let plan = child_plan(chain.cmds[m.stage as int], m.upstream, m.downstream);
            &&& exists|k: int|
                0 <= k < plan.len() && plan[k] == ChildOpModel::Fd(
                    FdOp::Dup2 { from: m.pipes[m.stage - 1].0, onto: STDIN_FILENO },
                ) && forall|j: int|
                    0 <= j < plan.len() && #[trigger] wires(plan[j], STDIN_FILENO) ==> j == k
            &&& exists|k: int|
                0 <= k < plan.len() && plan[k] == ChildOpModel::Fd(
                    FdOp::Dup2 { from: m.pipes[m.stage as int].1, onto: STDOUT_FILENO },
                ) && forall|j: int|
                    0 <= j < plan.len() && #[trigger] wires(plan[j], STDOUT_FILENO) ==> j == k
        }),
{
    let s = chain.cmds[m.stage as int];
    let up = m.upstream->Some_0;
    let down = m.downstream->Some_0;
    let plan = child_plan(s, m.upstream, m.downstream);
    assert(input_part(s) =~= Seq::empty());
    assert(output_part(s) =~= Seq::empty());
    assert(plan =~= seq![
        ChildOpModel::Fd(FdOp::Close(up.write_fd)),
        ChildOpModel::Fd(FdOp::Dup2 { from: up.read_fd, onto: STDIN_FILENO }),
        ChildOpModel::Fd(FdOp::Close(down.read_fd)),
        ChildOpModel::Fd(FdOp::Dup2 { from: down.write_fd, onto: STDOUT_FILENO }),
        ChildOpModel::Exec(s.executable, s.args),
    ]);
    assert forall|j: int| 0 <= j < plan.len() && #[trigger] wires(plan[j], STDIN_FILENO) implies j
        == 1 by {
        if j == 0 {
        } else if j == 2 {
        } else if j == 3 {
        } else if j == 4 {
        }
    }
    assert forall|j: int| 0 <= j < plan.len() && #[trigger] wires(plan[j], STDOUT_FILENO) implies j
        == 3 by {
        if j == 0 {
        } else if j == 1 {
        } else if j == 2 {
        } else if j == 4 {
        }
    }
    assert(plan[1] == ChildOpModel::Fd(
        FdOp::Dup2 { from: m.pipes[m.stage - 1].0, onto: STDIN_FILENO },
    ));
    assert(plan[3] == ChildOpModel::Fd(
        FdOp::Dup2 { from: m.pipes[m.stage as int].1, onto: STDOUT_FILENO },
    ));
}

/// A copy of an argument vector.
fn clone_args(args: &Vec<String>) -> (r: Vec<String>)
    ensures
        strs_view(r@) == strs_view(args@),
{
    let mut r: Vec<String> = Vec::new();
    let mut i: usize = 0;
    while i < args.len()
        invariant
            i <= args.len(),
            r@ == args@.subrange(0, i as int),
        decreases args.len() - i,
    {
        r.push(args[i].clone());
        assert(r@ =~= args@.subrange(0, i as int + 1));
        i = i + 1;
    }
    assert(r@ =~= args@);
    r
}

} // verus!
