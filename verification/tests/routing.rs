// Routing plan of the GPU backend: kernel list, board writers, chip-name parsing and
// the chip-list setting.

use tetris_silicon::backends::routing::{
    chip_mutates_board, has_gpu_kernel, parse_chip_name, plan_from_setting, route_for,
    route_layers, settle_route, CudaRoutingPlan, RouteChoice, CONTRACT_CUDA_CHIPS,
    CUDA_KERNEL_CHIPS,
};
use tetris_silicon::backends::ChipId;
use tetris_silicon::motherboard::SiliconMotherboard;

fn selected(plan: &CudaRoutingPlan) -> Vec<ChipId> {
    CONTRACT_CUDA_CHIPS
        .iter()
        .copied()
        .filter(|c| plan.can_run_on_cuda(*c))
        .collect()
}

#[test]
fn contract_default_takes_every_chip() {
    let plan = CudaRoutingPlan::contract_default();
    assert_eq!(selected(&plan).len(), 15);
    for (i, c) in CONTRACT_CUDA_CHIPS.iter().enumerate() {
        assert_eq!(c.index(), i);
        assert!(plan.can_run_on_cuda(*c));
    }
}

#[test]
fn kernels_exist_for_three_chips() {
    for c in CONTRACT_CUDA_CHIPS {
        assert_eq!(has_gpu_kernel(c), CUDA_KERNEL_CHIPS.contains(&c));
    }
    assert!(has_gpu_kernel(ChipId::CollisionDetector));
    assert!(has_gpu_kernel(ChipId::LineClearDetector));
    assert!(has_gpu_kernel(ChipId::GhostComputer));
    assert!(!has_gpu_kernel(ChipId::Rotation));
    assert!(!has_gpu_kernel(ChipId::Movement));
    assert!(!has_gpu_kernel(ChipId::PieceLocker));
}

#[test]
fn only_locker_and_committer_write_the_board() {
    for c in CONTRACT_CUDA_CHIPS {
        let expected = c == ChipId::PieceLocker || c == ChipId::LineClearCommitter;
        assert_eq!(chip_mutates_board(c), expected);
    }
}

#[test]
fn chip_names_parse_in_both_spellings() {
    assert_eq!(parse_chip_name("inputdecoder"), Some(ChipId::InputDecoder));
    assert_eq!(parse_chip_name("input_decoder"), Some(ChipId::InputDecoder));
    assert_eq!(parse_chip_name("rotation"), Some(ChipId::Rotation));
    assert_eq!(parse_chip_name("movement"), Some(ChipId::Movement));
    assert_eq!(parse_chip_name("line_clear_committer"), Some(ChipId::LineClearCommitter));
    assert_eq!(parse_chip_name("ghostcomputer"), Some(ChipId::GhostComputer));
    assert_eq!(parse_chip_name("spawn_controller"), Some(ChipId::SpawnController));
}

#[test]
fn chip_names_are_matched_exactly() {
    assert_eq!(parse_chip_name("Rotation"), None);
    assert_eq!(parse_chip_name(" rotation"), None);
    assert_eq!(parse_chip_name("rot"), None);
    assert_eq!(parse_chip_name(""), None);
    assert_eq!(parse_chip_name("ghost-computer"), None);
}

#[test]
fn setting_none_selects_nothing() {
    assert!(selected(&plan_from_setting("none")).is_empty());
    assert!(selected(&plan_from_setting("  NoNe \t")).is_empty());
}

#[test]
fn settings_all_contract_and_empty_select_everything() {
    for raw in ["", "   ", "all", "ALL", "contract", " Contract\n"] {
        assert_eq!(selected(&plan_from_setting(raw)).len(), 15, "setting {:?}", raw);
    }
}

#[test]
fn setting_list_selects_named_chips() {
    let plan = plan_from_setting("CollisionDetector, ghost_computer,,bogus");
    assert_eq!(selected(&plan), vec![ChipId::CollisionDetector, ChipId::GhostComputer]);

    let plan = plan_from_setting("rotation");
    assert_eq!(selected(&plan), vec![ChipId::Rotation]);

    let plan = plan_from_setting("bogus");
    assert!(selected(&plan).is_empty());

    let plan = plan_from_setting(",,");
    assert!(selected(&plan).is_empty());
}

#[test]
fn setting_list_trims_unicode_white_space() {
    let plan = plan_from_setting("\u{a0}rotation\u{3000},\u{2003}MOVEMENT ");
    assert_eq!(selected(&plan), vec![ChipId::Rotation, ChipId::Movement]);
}

#[test]
fn setting_list_ignores_repeats() {
    let plan = plan_from_setting("score_keeper,scorekeeper, SCORE_KEEPER");
    assert_eq!(selected(&plan), vec![ChipId::ScoreKeeper]);
}

#[test]
fn routes_follow_plan_and_kernels() {
    let all = CudaRoutingPlan::contract_default();
    assert_eq!(route_for(&all, ChipId::CollisionDetector), RouteChoice::GpuKernel);
    assert_eq!(route_for(&all, ChipId::Movement), RouteChoice::TraitCpu);
    let none = plan_from_setting("none");
    assert_eq!(route_for(&none, ChipId::CollisionDetector), RouteChoice::Cpu);
    let some = plan_from_setting("ghost_computer,movement");
    assert_eq!(route_for(&some, ChipId::GhostComputer), RouteChoice::GpuKernel);
    assert_eq!(route_for(&some, ChipId::Movement), RouteChoice::TraitCpu);
    assert_eq!(route_for(&some, ChipId::LineClearDetector), RouteChoice::Cpu);
}

#[test]
fn settling_a_route() {
    assert_eq!(
        settle_route(RouteChoice::GpuKernel, true, ChipId::CollisionDetector, true, 4),
        ("gpu-kernel", false, true, 5)
    );
    assert_eq!(
        settle_route(RouteChoice::GpuKernel, false, ChipId::CollisionDetector, true, 4),
        ("trait-cpu", true, true, 4)
    );
    assert_eq!(
        settle_route(RouteChoice::GpuKernel, true, ChipId::GhostComputer, false, u64::MAX),
        ("gpu-kernel", false, false, 0)
    );
    assert_eq!(
        settle_route(RouteChoice::TraitCpu, true, ChipId::PieceLocker, true, 2),
        ("trait-cpu", true, false, 2)
    );
    assert_eq!(
        settle_route(RouteChoice::Cpu, true, ChipId::LineClearCommitter, true, 2),
        ("cpu", true, false, 2)
    );
    assert_eq!(settle_route(RouteChoice::Cpu, false, ChipId::Movement, true, 2), ("cpu", true, true, 2));
}

#[test]
fn routing_a_whole_tick() {
    let mb = SiliconMotherboard::new();
    let plan = CudaRoutingPlan::contract_default();
    let mut ok = vec![true; 15];
    ok[9] = false; // the line-clear detector's kernel fails
    let (routes, dispatched, synced) = route_layers(&plan, &mb.layers, &ok, true);
    assert_eq!(routes.len(), 15);
    assert_eq!(dispatched, 2);
    assert!(!synced); // the piece locker and the committer ticked on the CPU
    assert_eq!((routes[3].layer, routes[3].chip, routes[3].backend), (1, "CollisionDetector", "gpu-kernel"));
    assert_eq!(routes[4].backend, "trait-cpu");
    assert_eq!((routes[9].chip, routes[9].backend), ("LineClearDetector", "trait-cpu"));
    assert_eq!((routes[14].layer, routes[14].chip, routes[14].backend), (3, "GhostComputer", "gpu-kernel"));

    let none = plan_from_setting("none");
    let (routes, dispatched, synced) = route_layers(&none, &mb.layers, &ok, true);
    assert!(routes.iter().all(|r| r.backend == "cpu"));
    assert_eq!(dispatched, 0);
    assert!(!synced);

    let kernels_only = plan_from_setting("collisiondetector,ghostcomputer");
    let (_, dispatched, synced) = route_layers(&kernels_only, &mb.layers, &ok, true);
    assert_eq!(dispatched, 2);
    assert!(!synced);
}
