use autoloop_engine::kill::{kill_autoloop_group, KillPlan, KillSignal};

#[test]
fn a_group_is_terminated_and_then_killed() {
    assert_eq!(
        kill_autoloop_group(4_711),
        KillPlan {
            pgid: 4_711,
            first: KillSignal::Terminate,
            grace_secs: 2,
            last: KillSignal::Kill,
        }
    );
}

#[test]
fn a_process_id_is_read_as_a_signed_number() {
    for pid in [0u32, 1, 0x7fff_ffff, 0x8000_0000, 0xffff_ffff] {
        assert_eq!(kill_autoloop_group(pid).pgid, pid as i32);
    }
}
