use unix_exec_piper::{
    exited_normally, pending_indices, update_process_states, BasicCmdBuilder, Builder,
    ChainError, ChildOp, CmdChain, CmdChainBuilder, FdOp, LaunchStep, Launcher, Pipe,
    ProcessState, WaitOutcome,
};

fn cmd(args: &[&str]) -> BasicCmdBuilder {
    let mut b = BasicCmdBuilder::new().set_executable(args[0]);
    for a in args {
        b = b.add_arg(a);
    }
    b
}

fn grep_chain() -> CmdChain {
    CmdChainBuilder::new()
        .add_cmd(cmd(&["echo", "Hallo\nAbc\n123\nAbc123"]))
        .add_cmd(cmd(&["grep", "-i", "abc"]))
        .add_cmd(cmd(&["wc", "-l"]))
        .build()
}

/// Drives a launch in the launching process, with pipe `k` getting the
/// descriptors (10 + 2k, 11 + 2k) and stage `i` the process id 100 + i.
/// Returns the states, the number of pipes created and what the parent
/// performed after each fork.
fn launch(chain: &CmdChain) -> (Vec<ProcessState>, usize, Vec<Vec<FdOp>>) {
    let mut l = Launcher::new(chain);
    let mut pipes = 0;
    let mut parent_ops = vec![];
    loop {
        match l.next_step() {
            LaunchStep::CreatePipe => {
                l.pipe_created(10 + 2 * pipes, 11 + 2 * pipes);
                pipes += 1;
            }
            LaunchStep::Fork => {
                let pid = 100 + parent_ops.len() as i32;
                parent_ops.push(l.parent_forked(pid));
            }
            LaunchStep::Done => break,
        }
    }
    (l.process_states(chain), pipes as usize, parent_ops)
}

/// What the child of stage `stage` performs, in the same launch as `launch`.
fn child_of(chain: &CmdChain, stage: usize) -> Vec<ChildOp> {
    let mut l = Launcher::new(chain);
    let mut pipes = 0;
    let mut forked = 0;
    loop {
        match l.next_step() {
            LaunchStep::CreatePipe => {
                l.pipe_created(10 + 2 * pipes, 11 + 2 * pipes);
                pipes += 1;
            }
            LaunchStep::Fork => {
                if forked == stage {
                    return l.child_ops(chain);
                }
                l.parent_forked(100 + forked as i32);
                forked += 1;
            }
            LaunchStep::Done => panic!("no such stage"),
        }
    }
}

fn exec_of(args: &[&str]) -> ChildOp {
    ChildOp::Exec {
        executable: args[0].to_string(),
        args: args.iter().map(|a| a.to_string()).collect(),
    }
}

#[test]
fn test_execute_chain() {
    let chain = grep_chain();
    let (mut states, pipes, parent_ops) = launch(&chain);
    assert_eq!(pipes, 2);
    assert_eq!(states.len(), 3);
    assert_eq!(parent_ops[0], vec![]);
    assert_eq!(parent_ops[1], vec![FdOp::Close(11), FdOp::Close(10)]);
    assert_eq!(parent_ops[2], vec![FdOp::Close(13), FdOp::Close(12)]);
    let outcomes = vec![WaitOutcome::Status(0); 3];
    assert_eq!(update_process_states(&mut states, &outcomes), Ok(true));
    for s in &states {
        assert!(s.finished());
        assert_eq!(s.exit_code(), 0);
    }
}

#[test]
fn chain_builder_marks_first_and_last() {
    let chain = grep_chain();
    assert_eq!(chain.length(), 3);
    assert!(!chain.background());
    let cmds = chain.cmds();
    assert!(cmds[0].is_first() && !cmds[0].is_last() && !cmds[0].is_in_middle());
    assert!(!cmds[1].is_first() && !cmds[1].is_last() && cmds[1].is_in_middle());
    assert!(!cmds[2].is_first() && cmds[2].is_last() && !cmds[2].is_in_middle());
    assert_eq!(cmds[1].executable(), "grep");
    assert_eq!(cmds[1].args(), &vec!["grep".to_string(), "-i".to_string(), "abc".to_string()]);
    assert_eq!(cmds[0].in_red_path(), &None);
}

#[test]
fn command_builder_keeps_redirects() {
    let chain = CmdChainBuilder::new()
        .add_cmd(cmd(&["cat"]).set_input_redirect_path("in.txt"))
        .add_cmd(cmd(&["cat"]).set_output_redirect_path("out.txt"))
        .set_background(true)
        .build();
    assert!(chain.background());
    assert_eq!(chain.cmds()[0].in_red_path(), &Some("in.txt".to_string()));
    assert_eq!(chain.cmds()[1].out_red_path(), &Some("out.txt".to_string()));
    assert_eq!(chain.cmds()[1].in_red_path(), &None);
}

#[test]
fn single_stage_uses_no_pipe() {
    let chain = CmdChainBuilder::new().add_cmd(cmd(&["echo", "X"])).build();
    assert!(chain.cmds()[0].is_first() && chain.cmds()[0].is_last());
    let (states, pipes, parent_ops) = launch(&chain);
    assert_eq!(pipes, 0);
    assert_eq!(parent_ops, vec![vec![]]);
    assert_eq!(states.len(), 1);
    assert_eq!(child_of(&chain, 0), vec![exec_of(&["echo", "X"])]);
}

#[test]
fn single_stage_round_trip_finishes_with_zero() {
    let chain = CmdChainBuilder::new().add_cmd(cmd(&["echo", "X"])).build();
    let (mut states, _, _) = launch(&chain);
    assert!(!states[0].finished());
    assert_eq!(states[0].pid(), 100);
    assert_eq!(states[0].executable(), "echo");
    assert_eq!(update_process_states(&mut states, &vec![WaitOutcome::Status(0)]), Ok(true));
    assert!(states[0].finished());
    assert_eq!(states[0].exit_code(), 0);
}

#[test]
fn interior_stage_reads_one_pipe_and_writes_another() {
    let chain = grep_chain();
    assert_eq!(
        child_of(&chain, 1),
        vec![
            ChildOp::Fd(FdOp::Close(11)),
            ChildOp::Fd(FdOp::Dup2 { from: 10, onto: 0 }),
            ChildOp::Fd(FdOp::Close(12)),
            ChildOp::Fd(FdOp::Dup2 { from: 13, onto: 1 }),
            exec_of(&["grep", "-i", "abc"]),
        ]
    );
    assert_eq!(
        child_of(&chain, 0),
        vec![
            ChildOp::Fd(FdOp::Close(10)),
            ChildOp::Fd(FdOp::Dup2 { from: 11, onto: 1 }),
            exec_of(&["echo", "Hallo\nAbc\n123\nAbc123"]),
        ]
    );
    assert_eq!(
        child_of(&chain, 2),
        vec![
            ChildOp::Fd(FdOp::Close(13)),
            ChildOp::Fd(FdOp::Dup2 { from: 12, onto: 0 }),
            exec_of(&["wc", "-l"]),
        ]
    );
}

#[test]
fn five_stages_create_four_pipes() {
    let mut b = CmdChainBuilder::new();
    for _ in 0..5 {
        b = b.add_cmd(cmd(&["cat"]));
    }
    let chain = b.build();
    let (states, pipes, _) = launch(&chain);
    assert_eq!(pipes, 4);
    assert_eq!(states.len(), 5);
    let pids: Vec<i32> = states.iter().map(|s| s.pid()).collect();
    assert_eq!(pids, vec![100, 101, 102, 103, 104]);
}

#[test]
fn redirects_wire_first_and_last_stage() {
    let chain = CmdChainBuilder::new()
        .add_cmd(cmd(&["cat"]).set_input_redirect_path("src.txt"))
        .add_cmd(cmd(&["cat"]))
        .add_cmd(cmd(&["cat"]).set_output_redirect_path("dst.txt"))
        .build();
    assert_eq!(
        child_of(&chain, 0),
        vec![
            ChildOp::RedirectInput("src.txt".to_string()),
            ChildOp::Fd(FdOp::Close(10)),
            ChildOp::Fd(FdOp::Dup2 { from: 11, onto: 1 }),
            exec_of(&["cat"]),
        ]
    );
    assert_eq!(
        child_of(&chain, 2),
        vec![
            ChildOp::RedirectOutput("dst.txt".to_string()),
            ChildOp::Fd(FdOp::Close(13)),
            ChildOp::Fd(FdOp::Dup2 { from: 12, onto: 0 }),
            exec_of(&["cat"]),
        ]
    );
}

#[test]
fn redirect_on_interior_stage_is_not_applied() {
    let chain = CmdChainBuilder::new()
        .add_cmd(cmd(&["cat"]))
        .add_cmd(cmd(&["cat"]).set_input_redirect_path("x").set_output_redirect_path("y"))
        .add_cmd(cmd(&["cat"]))
        .build();
    let ops = child_of(&chain, 1);
    assert_eq!(ops.len(), 5);
    assert!(!ops.iter().any(|o| matches!(o, ChildOp::RedirectInput(_) | ChildOp::RedirectOutput(_))));
}

#[test]
fn background_poll_until_finished() {
    let chain = CmdChainBuilder::new()
        .add_cmd(cmd(&["ls", "-l"]))
        .add_cmd(cmd(&["grep", "-i", "a"]))
        .set_background(true)
        .build();
    let (mut states, _, _) = launch(&chain);
    assert!(states.iter().all(|s| !s.finished()));
    let pending = vec![WaitOutcome::NoStatusYet, WaitOutcome::NoStatusYet];
    assert_eq!(update_process_states(&mut states, &pending), Ok(false));
    assert!(states.iter().all(|s| !s.finished()));
    assert_eq!(pending_indices(&states), vec![0, 1]);

    let half = vec![WaitOutcome::NoStatusYet, WaitOutcome::Status(0)];
    assert_eq!(update_process_states(&mut states, &half), Ok(false));
    assert!(!states[0].finished());
    assert!(states[1].finished());
    assert_eq!(pending_indices(&states), vec![0]);

    let rest = vec![WaitOutcome::Status(0x0200), WaitOutcome::NoStatusYet];
    assert_eq!(update_process_states(&mut states, &rest), Ok(true));
    assert_eq!(states[0].exit_code(), 2);
    assert_eq!(states[1].exit_code(), 0);

    // all finished: nothing is queried, and nothing changes
    assert_eq!(pending_indices(&states), Vec::<usize>::new());
    let again = vec![WaitOutcome::Failed(10), WaitOutcome::Status(0x0100)];
    assert_eq!(update_process_states(&mut states, &again), Ok(true));
    assert_eq!(states[0].exit_code(), 2);
    assert_eq!(states[1].exit_code(), 0);
}

#[test]
fn exit_code_comes_from_the_status_word() {
    let mut states = vec![ProcessState::new("false".to_string(), 7)];
    assert_eq!(update_process_states(&mut states, &vec![WaitOutcome::Status(0x0100)]), Ok(true));
    assert_eq!(states[0].exit_code(), 1);
    assert!(exited_normally(0x0100));
    assert!(exited_normally(0));
    // terminated by signal 9: finished, with the bits that are there
    assert!(!exited_normally(9));
    let mut killed = vec![ProcessState::new("sleep".to_string(), 8)];
    assert_eq!(update_process_states(&mut killed, &vec![WaitOutcome::Status(9)]), Ok(true));
    assert_eq!(killed[0].exit_code(), 0);
}

#[test]
fn failed_query_is_reported_and_changes_nothing() {
    let mut states = vec![
        ProcessState::new("a".to_string(), 1),
        ProcessState::new("b".to_string(), 2),
        ProcessState::new("c".to_string(), 3),
    ];
    let outcomes =
        vec![WaitOutcome::Status(0), WaitOutcome::Failed(10), WaitOutcome::Failed(4)];
    assert_eq!(update_process_states(&mut states, &outcomes), Err(ChainError::WaitFailed(10)));
    assert!(states.iter().all(|s| !s.finished()));
}

#[test]
fn finish_then_read_exit_code() {
    let mut s = ProcessState::new("true".to_string(), 42);
    assert!(!s.finished());
    s.finish(3);
    assert!(s.finished());
    assert_eq!(s.exit_code(), 3);
    assert_eq!(s.pid(), 42);
}

#[test]
fn pipe_claims_and_release() {
    let mut p = Pipe::new(5, 6);
    assert_eq!(p.as_read_end(), vec![FdOp::Close(6), FdOp::Dup2 { from: 5, onto: 0 }]);
    assert_eq!(p.parent_close_all(), vec![FdOp::Close(5)]);
    assert_eq!(p.parent_close_all(), vec![]);

    let mut q = Pipe::new(7, 8);
    assert_eq!(q.as_write_end(), vec![FdOp::Close(7), FdOp::Dup2 { from: 8, onto: 1 }]);
    assert_eq!(q.parent_close_all(), vec![FdOp::Close(8)]);

    let mut r = Pipe::new(3, 4);
    assert_eq!(r.parent_close_all(), vec![FdOp::Close(4), FdOp::Close(3)]);
    assert_eq!(r.parent_close_all(), vec![]);
}

#[test]
fn launcher_release_all_closes_held_pipes() {
    let chain = grep_chain();
    let mut l = Launcher::new(&chain);
    assert_eq!(l.next_step(), LaunchStep::CreatePipe);
    l.pipe_created(20, 21);
    assert_eq!(l.next_step(), LaunchStep::Fork);
    assert_eq!(l.parent_forked(1), vec![]);
    assert_eq!(l.next_step(), LaunchStep::CreatePipe);
    l.pipe_created(22, 23);
    assert_eq!(
        l.release_all(),
        vec![FdOp::Close(21), FdOp::Close(20), FdOp::Close(23), FdOp::Close(22)]
    );
    assert_eq!(l.release_all(), vec![]);
}
