//! The chain description (stages and their builders) and the per-process state.

use vstd::prelude::*;

verus! {

/// The views of a sequence of strings.
pub open spec fn strs_view(v: Seq<String>) -> Seq<Seq<char>> {
    v.map_values(|s: String| s@)
}

/// The view of an optional string.
pub open spec fn opt_str_view(o: Option<String>) -> Option<Seq<char>> {
    match o {
        Some(s) => Some(s@),
        None => None,
    }
}

/// Common trait for the two builders.
pub trait Builder<To>: Sized {
    /// Whether the builder holds enough to build a value.
    spec fn ready(&self) -> bool;

    /// Whether `r` is the value that this builder builds.
    spec fn builds(&self, r: To) -> bool;

    fn build(self) -> (r: To)
        requires
            self.ready(),
        ensures
            self.builds(r),
    ;
}

/// Mathematical model of one stage of a chain.
pub struct StageModel {
    pub executable: Seq<char>,
    pub args: Seq<Seq<char>>,
    pub in_red_path: Option<Seq<char>>,
    pub out_red_path: Option<Seq<char>>,
    pub is_first: bool,
    pub is_last: bool,
}

/// A basic command is a parsed form of for example
///  * `cat < in.txt`, or
///  * `tee file.txt`, or
///  * `wc -l > out.txt`
/// inside `cat < in.txt | tee file.txt | wc -l > out.txt &`.
#[derive(Debug)]
pub struct BasicCmd {
    /// Absolute or relative path (or no path at all; just a name).
    executable: String,
    /// Arguments, with the executable name as the first one.
    args: Vec<String>,
    /// The file for the input redirect (only for the first command of a chain).
    in_red_path: Option<String>,
    /// The file for the output redirect (only for the last command of a chain).
    out_red_path: Option<String>,
    /// Whether it is the first command in the chain.
    is_first: bool,
    /// Whether it is the last command in the chain.
    is_last: bool,
}

impl View for BasicCmd {
    type V = StageModel;

    closed spec fn view(&self) -> StageModel {
        StageModel {
            executable: self.executable@,
            args: strs_view(self.args@),
            in_red_path: opt_str_view(self.in_red_path),
            out_red_path: opt_str_view(self.out_red_path),
            is_first: self.is_first,
            is_last: self.is_last,
        }
    }
}

impl BasicCmd {
    /// Getter for executable.
    pub fn executable(&self) -> (r: &str)
        ensures
            r@ == self@.executable,
    {
        self.executable.as_str()
    }

    /// Getter for args.
    pub fn args(&self) -> (r: &Vec<String>)
        ensures
            strs_view(r@) == self@.args,
    {
        &self.args
    }

    /// Getter for in_red_path.
    pub fn in_red_path(&self) -> (r: &Option<String>)
        ensures
            opt_str_view(*r) == self@.in_red_path,
    {
        &self.in_red_path
    }

    /// Getter for out_red_path.
    pub fn out_red_path(&self) -> (r: &Option<String>)
        ensures
            opt_str_view(*r) == self@.out_red_path,
    {
        &self.out_red_path
    }

    /// Getter for is_first.
    pub fn is_first(&self) -> (r: bool)
        ensures
            r == self@.is_first,
    {
        self.is_first
    }

    /// Getter for is_last.
    pub fn is_last(&self) -> (r: bool)
        ensures
            r == self@.is_last,
    {
        self.is_last
    }

    /// Whether the command is neither the first nor the last of its chain.
    pub fn is_in_middle(&self) -> (r: bool)
        ensures
            r == (!self@.is_first && !self@.is_last),
    {
        !self.is_first && !self.is_last
    }
}

/// Mathematical model of a command builder.
pub struct CmdBuilderModel {
    pub executable: Option<Seq<char>>,
    pub args: Seq<Seq<char>>,
    pub in_red_path: Option<Seq<char>>,
    pub out_red_path: Option<Seq<char>>,
    pub is_first: bool,
    pub is_last: bool,
}

/// The stage that a ready command builder yields.
pub open spec fn stage_of(b: CmdBuilderModel) -> StageModel {
    StageModel {
        executable: b.executable.unwrap(),
        args: b.args,
        in_red_path: b.in_red_path,
        out_red_path: b.out_red_path,
        is_first: b.is_first,
        is_last: b.is_last,
    }
}

/// Builder for `BasicCmd`.
#[derive(Debug)]
pub struct BasicCmdBuilder {
    executable: Option<String>,
    args: Vec<String>,
    input_redirect_path: Option<String>,
    output_redirect_path: Option<String>,
    is_first: bool,
    is_last: bool,
}

impl View for BasicCmdBuilder {
    type V = CmdBuilderModel;

    closed spec fn view(&self) -> CmdBuilderModel {
        CmdBuilderModel {
            executable: opt_str_view(self.executable),
            args: strs_view(self.args@),
            in_red_path: opt_str_view(self.input_redirect_path),
            out_red_path: opt_str_view(self.output_redirect_path),
            is_first: self.is_first,
            is_last: self.is_last,
        }
    }
}

impl BasicCmdBuilder {
    pub fn new() -> (r: Self)
        ensures
            r@ == (CmdBuilderModel {
                executable: None,
                args: Seq::empty(),
                in_red_path: None,
                out_red_path: None,
                is_first: false,
                is_last: false,
            }),
    {
        let r = BasicCmdBuilder {
            executable: None,
            args: Vec::new(),
            input_redirect_path: None,
            output_redirect_path: None,
            is_first: false,
            is_last: false,
        };
        assert(strs_view(r.args@) =~= Seq::empty());
        r
    }

    pub fn set_executable(self, executable: &str) -> (r: Self)
        ensures
            r@ == (CmdBuilderModel { executable: Some(executable@), ..self@ }),
    {
        let mut b = self;
        b.executable = Some(executable.to_owned());
        b
    }

    pub fn add_arg(self, arg: &str) -> (r: Self)
        ensures
            r@ == (CmdBuilderModel { args: self@.args.push(arg@), ..self@ }),
    {
        let mut b = self;
        b.args.push(arg.to_owned());
        assert(strs_view(b.args@) =~= strs_view(self.args@).push(arg@));
        b
    }

    pub fn set_input_redirect_path(self, input_redirect_path: &str) -> (r: Self)
        ensures
            r@ == (CmdBuilderModel { in_red_path: Some(input_redirect_path@), ..self@ }),
    {
        let mut b = self;
        b.input_redirect_path = Some(input_redirect_path.to_owned());
        b
    }

    pub fn set_output_redirect_path(self, output_redirect_path: &str) -> (r: Self)
        ensures
            r@ == (CmdBuilderModel { out_red_path: Some(output_redirect_path@), ..self@ }),
    {
        let mut b = self;
        b.output_redirect_path = Some(output_redirect_path.to_owned());
        b
    }

    // it does not return self on purpose: only the chain builder sets it
    fn set_is_first(&mut self, is_first: bool)
        ensures
            final(self)@ == (CmdBuilderModel { is_first, ..old(self)@ }),
    {
        self.is_first = is_first;
    }

    // it does not return self on purpose: only the chain builder sets it
    fn set_is_last(&mut self, is_last: bool)
        ensures
            final(self)@ == (CmdBuilderModel { is_last, ..old(self)@ }),
    {
        self.is_last = is_last;
    }
}

impl Builder<BasicCmd> for BasicCmdBuilder {
    open spec fn ready(&self) -> bool {
        self@.executable.is_some() && self@.args.len() > 0
    }

    open spec fn builds(&self, r: BasicCmd) -> bool {
        r@ == stage_of(self@)
    }

    /// Builds a `BasicCmd` from a builder with an executable and at least one argument.
    fn build(self) -> (r: BasicCmd) {
        let executable = match self.executable {
            Some(e) => e,
            None => String::new(),
        };
        BasicCmd {
            executable,
            args: self.args,
            in_red_path: self.input_redirect_path,
            out_red_path: self.output_redirect_path,
            is_first: self.is_first,
            is_last: self.is_last,
        }
    }
}


/// Mathematical model of a chain: its stages in order and its background flag.
pub struct ChainModel {
    pub background: bool,
    pub cmds: Seq<StageModel>,
}

/// A chain is well formed when it has at least one stage, each stage has at
/// least one argument, and the first/last flags agree with the positions.
pub open spec fn chain_wf(m: ChainModel) -> bool {
    &&& m.cmds.len() > 0
    &&& forall|i: int|
        0 <= i < m.cmds.len() ==> {
            &&& (#[trigger] m.cmds[i]).is_first == (i == 0)
            &&& m.cmds[i].is_last == (i + 1 == m.cmds.len())
            &&& m.cmds[i].args.len() > 0
        }
}

/// The views of a sequence of commands.
pub open spec fn cmds_view(v: Seq<BasicCmd>) -> Seq<StageModel> {
    v.map_values(|c: BasicCmd| c@)
}

/// A command chain is the unit that gets executed. It is a parsed form of:
///  * `ps`
///  * `ls -l`
///  * `cat < in.txt | tee file.txt | wc -l > out.txt &`
/// It knows whether the started processes are waited for (foreground) or
/// only polled (background).
#[derive(Debug)]
pub struct CmdChain {
    /// Whether the waiting for the processes is done non-blocking.
    background: bool,
    /// All commands in order.
    cmds: Vec<BasicCmd>,
}

impl View for CmdChain {
    type V = ChainModel;

    closed spec fn view(&self) -> ChainModel {
        ChainModel { background: self.background, cmds: cmds_view(self.cmds@) }
    }
}

impl CmdChain {
    #[verifier::type_invariant]
    spec fn inv(&self) -> bool {
        chain_wf(self@)
    }

    /// Getter for background.
    pub fn background(&self) -> (r: bool)
        ensures
            r == self@.background,
    {
        self.background
    }

    /// Getter for cmds; every chain is well formed.
    pub fn cmds(&self) -> (r: &Vec<BasicCmd>)
        ensures
            cmds_view(r@) == self@.cmds,
            chain_wf(self@),
    {
        proof {
            use_type_invariant(self);
        }
        &self.cmds
    }

    /// Getter for the number of commands; every chain is well formed.
    pub fn length(&self) -> (r: usize)
        ensures
            r == self@.cmds.len(),
            chain_wf(self@),
    {
        proof {
            use_type_invariant(self);
        }
        self.cmds.len()
    }
}

/// Mathematical model of a chain builder.
pub struct ChainBuilderModel {
    pub background: bool,
    pub cmds: Seq<CmdBuilderModel>,
}

/// The views of a sequence of command builders.
pub open spec fn builders_view(v: Seq<BasicCmdBuilder>) -> Seq<CmdBuilderModel> {
    v.map_values(|b: BasicCmdBuilder| b@)
}

/// The stage that the builder at position `i` of `n` yields.
pub open spec fn placed_stage(b: CmdBuilderModel, i: int, n: int) -> StageModel {
    stage_of(CmdBuilderModel { is_first: i == 0, is_last: i + 1 == n, ..b })
}

/// The chain that a ready chain builder yields.
pub open spec fn chain_of(b: ChainBuilderModel) -> ChainModel {
    ChainModel {
        background: b.background,
        cmds: Seq::new(b.cmds.len(), |i: int| placed_stage(b.cmds[i], i, b.cmds.len() as int)),
    }
}

/// Builder for `CmdChain`.
#[derive(Debug)]
pub struct CmdChainBuilder {
    background: bool,
    cmds: Vec<BasicCmdBuilder>,
}

impl View for CmdChainBuilder {
    type V = ChainBuilderModel;

    closed spec fn view(&self) -> ChainBuilderModel {
        ChainBuilderModel { background: self.background, cmds: builders_view(self.cmds@) }
    }
}

impl CmdChainBuilder {
    pub fn new() -> (r: Self)
        ensures
            r@ == (ChainBuilderModel { background: false, cmds: Seq::empty() }),
    {
        let r = CmdChainBuilder { background: false, cmds: Vec::new() };
        assert(builders_view(r.cmds@) =~= Seq::empty());
        r
    }

    pub fn set_background(self, background: bool) -> (r: Self)
        ensures
            r@ == (ChainBuilderModel { background, ..self@ }),
    {
        let mut b = self;
        b.background = background;
        b
    }

    pub fn add_cmd(self, cmd: BasicCmdBuilder) -> (r: Self)
        ensures
            r@ == (ChainBuilderModel { cmds: self@.cmds.push(cmd@), ..self@ }),
    {
        let mut b = self;
        b.cmds.push(cmd);
        assert(builders_view(b.cmds@) =~= builders_view(self.cmds@).push(cmd@));
        b
    }
}

impl Builder<CmdChain> for CmdChainBuilder {
    open spec fn ready(&self) -> bool {
        &&& self@.cmds.len() > 0
        &&& forall|i: int|
            0 <= i < self@.cmds.len() ==> (#[trigger] self@.cmds[i]).executable.is_some()
                && self@.cmds[i].args.len() > 0
    }

    open spec fn builds(&self, r: CmdChain) -> bool {
        r@ == chain_of(self@)
    }

    /// Builds a `CmdChain`, marking the first and the last command.
    fn build(self) -> (r: CmdChain) {
        let ghost m = self@;
        let n = self.cmds.len();
        let mut rest = self.cmds;
        let mut cmds: Vec<BasicCmd> = Vec::new();
        let mut i: usize = 0;
        while rest.len() > 0
            invariant
                n == m.cmds.len(),
                i + rest.len() == n,
                builders_view(rest@) == m.cmds.subrange(i as int, n as int),
                cmds@.len() == i,
                forall|j: int|
                    0 <= j < i ==> (#[trigger] cmds@[j])@ == placed_stage(
                        m.cmds[j],
                        j,
                        n as int,
                    ),
                forall|j: int|
                    0 <= j < n ==> (#[trigger] m.cmds[j]).executable.is_some()
                        && m.cmds[j].args.len() > 0,
            decreases rest.len(),
        {
            let ghost before = rest@;
            let mut b = rest.remove(0);
            assert(b@ == builders_view(before)[0]);
            assert(builders_view(rest@) =~= m.cmds.subrange(i as int + 1, n as int)) by {
                assert(rest@ =~= before.subrange(1, before.len() as int));
                assert(builders_view(rest@) =~= builders_view(before).subrange(
                    1,
                    before.len() as int,
                ));
            }
            b.set_is_first(i == 0);
            b.set_is_last(i + 1 == n);
            let c = b.build();
            cmds.push(c);
            i = i + 1;
        }
        let r = CmdChain { background: self.background, cmds };
        assert(cmds_view(r.cmds@) =~= chain_of(m).cmds);
        r
    }
}

/// Mathematical model of the state of one spawned process.
pub struct ProcessModel {
    pub executable: Seq<char>,
    pub pid: i32,
    pub finished: bool,
    pub exit_code: i32,
}

/// Process state: the state of one child process started for a chain.
#[derive(Debug)]
pub struct ProcessState {
    /// The executable of the process, for diagnostics.
    executable: String,
    /// Process id.
    pid: i32,
    /// Whether the process is finished or still running.
    finished: bool,
    /// Exit code; meaningful only once finished.
    exit_code: i32,
}

impl View for ProcessState {
    type V = ProcessModel;

    closed spec fn view(&self) -> ProcessModel {
        ProcessModel {
            executable: self.executable@,
            pid: self.pid,
            finished: self.finished,
            exit_code: self.exit_code,
        }
    }
}

impl ProcessState {
    /// A running process.
    pub fn new(executable: String, pid: i32) -> (r: Self)
        ensures
            r@.executable == executable@,
            r@.pid == pid,
            !r@.finished,
    {
        Self { executable, pid, finished: false, exit_code: -1 }
    }

    /// Marks the process finished with the given exit code; this happens once.
    pub fn finish(&mut self, exit_code: i32)
        requires
            !old(self)@.finished,
        ensures
            final(self)@ == (ProcessModel { finished: true, exit_code, ..old(self)@ }),
    {
        self.finished = true;
        self.exit_code = exit_code;
    }

    /// Getter for pid.
    pub fn pid(&self) -> (r: i32)
        ensures
            r == self@.pid,
    {
        self.pid
    }

    /// Getter for finished. If false the process is still running.
    pub fn finished(&self) -> (r: bool)
        ensures
            r == self@.finished,
    {
        self.finished
    }

    /// Getter for exit_code, which exists only once the process is finished.
    pub fn exit_code(&self) -> (r: i32)
        requires
            self@.finished,
        ensures
            r == self@.exit_code,
    {
        self.exit_code
    }

    /// Getter for executable.
    pub fn executable(&self) -> (r: &str)
        ensures
            r@ == self@.executable,
    {
        self.executable.as_str()
    }
}

} // verus!
