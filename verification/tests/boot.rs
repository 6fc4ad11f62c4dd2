use rustsbi_proto::boot::{
    BootState, Handoff, Hart, Pending, Response, Shared, Simulation, EARLY_BOOTING, FINISHED,
    UNINITIALIZED,
};
use rustsbi_proto::dynamic::DynamicInfo;

const MAGIC: usize = 0x4942_534f;

fn info(magic: usize, next_addr: usize) -> DynamicInfo {
    DynamicInfo { magic, version: 2, next_addr, next_mode: 1, options: 0 }
}

fn leaders(sim: &Simulation) -> usize {
    (0..sim.len()).filter(|i| sim.hart(*i).leader).count()
}

fn check_sound(sim: &Simulation) {
    let shared = sim.shared();
    assert!(leaders(sim) <= 1);
    assert_eq!(leaders(sim) == 1, shared.boot != BootState::Uninitialized);
    for i in 0..sim.len() {
        let pending = sim.hart(i).pending;
        let past = !matches!(
            pending,
            Pending::CompareExchange
                | Pending::BringUp
                | Pending::StoreFinished
                | Pending::AwaitFinished
        );
        if past {
            assert_eq!(shared.boot, BootState::Finished);
        }
        if let Pending::Done(addr) = pending {
            match shared.handoff {
                Handoff::Published(record) => {
                    assert_eq!(addr, record.next_addr);
                    assert_eq!(record.magic, MAGIC);
                }
                _ => panic!("a hart jumps without a published record"),
            }
        }
    }
}

fn run(harts: usize, order: &[usize], read: Option<DynamicInfo>) -> Simulation {
    let mut sim = Simulation::new(harts, MAGIC);
    check_sound(&sim);
    for round in 0..40 {
        for k in 0..harts {
            let i = order[(round + k) % order.len()] % harts;
            sim.step(i, read);
            check_sound(&sim);
        }
    }
    sim
}

#[test]
fn constants_of_the_boot_lock() {
    assert_eq!(UNINITIALIZED, 0);
    assert_eq!(EARLY_BOOTING, 1);
    assert_eq!(FINISHED, 2);
    assert_eq!(BootState::Uninitialized.raw(), 0);
    assert_eq!(BootState::EarlyBooting.raw(), 1);
    assert_eq!(BootState::Finished.raw(), 2);
}

#[test]
fn one_hart_leads_and_all_jump() {
    for harts in 1..=8 {
        let order: Vec<usize> = (0..harts).collect();
        let sim = run(harts, &order, Some(info(MAGIC, 0x4000_0000)));
        assert_eq!(leaders(&sim), 1);
        assert_eq!(sim.shared().boot, BootState::Finished);
        for i in 0..harts {
            assert_eq!(sim.hart(i).pending, Pending::Done(0x4000_0000));
        }
    }
}

#[test]
fn any_hart_may_lead() {
    for first in 0..4 {
        let order: Vec<usize> = (0..4).map(|k| (k + first) % 4).collect();
        let mut sim = Simulation::new(4, MAGIC);
        for i in &order {
            sim.step(*i, None);
        }
        for i in 0..4 {
            assert_eq!(sim.hart(i).leader, i == first);
            let expected = if i == first { Pending::BringUp } else { Pending::AwaitFinished };
            assert_eq!(sim.hart(i).pending, expected);
        }
        assert_eq!(sim.shared().boot, BootState::EarlyBooting);
    }
}

#[test]
fn followers_wait_for_the_leader() {
    let mut sim = Simulation::new(3, MAGIC);
    sim.step(1, None);
    sim.step(0, None);
    sim.step(2, None);
    for _ in 0..10 {
        sim.step(0, None);
        sim.step(2, None);
        assert_eq!(sim.hart(0).pending, Pending::AwaitFinished);
        assert_eq!(sim.hart(2).pending, Pending::AwaitFinished);
        check_sound(&sim);
    }
    sim.step(1, None);
    assert_eq!(sim.hart(1).pending, Pending::StoreFinished);
    sim.step(0, None);
    assert_eq!(sim.hart(0).pending, Pending::AwaitFinished);
    sim.step(1, None);
    assert_eq!(sim.shared().boot, BootState::Finished);
    assert_eq!(sim.hart(1).pending, Pending::TryLock);
    sim.step(0, None);
    sim.step(2, None);
    assert_eq!(sim.hart(0).pending, Pending::TryLock);
    assert_eq!(sim.hart(2).pending, Pending::TryLock);
}

#[test]
fn one_hart_publishes_and_all_take_the_same_address() {
    let mut sim = Simulation::new(3, MAGIC);
    for i in [0, 1, 2, 0, 0, 1, 2] {
        sim.step(i, None);
    }
    for i in 0..3 {
        assert_eq!(sim.hart(i).pending, Pending::TryLock);
    }
    sim.step(2, None);
    assert_eq!(sim.hart(2).pending, Pending::ReadInfo);
    assert_eq!(sim.shared().handoff, Handoff::Claimed);
    sim.step(0, None);
    sim.step(1, None);
    assert_eq!(sim.hart(0).pending, Pending::Poll);
    assert_eq!(sim.hart(1).pending, Pending::Poll);
    sim.step(0, Some(info(MAGIC, 0x1111_0000)));
    assert_eq!(sim.hart(0).pending, Pending::Poll);
    sim.step(2, Some(info(MAGIC, 0x4000_0000)));
    assert_eq!(sim.hart(2).pending, Pending::Publish(info(MAGIC, 0x4000_0000)));
    sim.step(1, None);
    assert_eq!(sim.hart(1).pending, Pending::Poll);
    sim.step(2, None);
    assert_eq!(sim.shared().handoff, Handoff::Published(info(MAGIC, 0x4000_0000)));
    assert_eq!(sim.hart(2).pending, Pending::Poll);
    for i in 0..3 {
        sim.step(i, Some(info(MAGIC, 0x2222_0000)));
        assert_eq!(sim.hart(i).pending, Pending::Done(0x4000_0000));
    }
    for i in 0..3 {
        sim.step(i, None);
        assert_eq!(sim.hart(i).pending, Pending::Done(0x4000_0000));
    }
}

#[test]
fn unexpected_magic_is_fatal_and_nobody_jumps() {
    for harts in 1..=4 {
        let order: Vec<usize> = (0..harts).rev().collect();
        let sim = run(harts, &order, Some(info(MAGIC + 1, 0x4000_0000)));
        let mut fatal = 0;
        for i in 0..harts {
            match sim.hart(i).pending {
                Pending::Fatal => fatal += 1,
                Pending::Poll => {}
                other => panic!("hart {i} ended in {other:?}"),
            }
        }
        assert_eq!(fatal, 1);
        assert_eq!(sim.shared().handoff, Handoff::Claimed);
    }
}

#[test]
fn unreadable_information_is_fatal() {
    let sim = run(2, &[0, 1], None);
    let ends = [sim.hart(0).pending, sim.hart(1).pending];
    assert!(ends.contains(&Pending::Fatal));
    assert!(ends.contains(&Pending::Poll));
}

#[test]
fn hart_steps_one_by_one() {
    let step = |pending: Pending, leader: bool, response: Response| {
        let mut hart = Hart { pending, leader };
        hart.next(response, MAGIC);
        hart
    };
    let good = info(MAGIC, 0x8020_0000);
    let bad = info(0, 0x8020_0000);
    assert_eq!(Hart::new(), Hart { pending: Pending::CompareExchange, leader: false });
    assert_eq!(
        step(Pending::CompareExchange, false, Response::Exchanged(UNINITIALIZED)),
        Hart { pending: Pending::BringUp, leader: true }
    );
    for found in [EARLY_BOOTING, FINISHED, 77] {
        assert_eq!(
            step(Pending::CompareExchange, false, Response::Exchanged(found)),
            Hart { pending: Pending::AwaitFinished, leader: false }
        );
    }
    assert_eq!(
        step(Pending::BringUp, true, Response::Completed),
        Hart { pending: Pending::StoreFinished, leader: true }
    );
    assert_eq!(
        step(Pending::StoreFinished, true, Response::Completed),
        Hart { pending: Pending::TryLock, leader: true }
    );
    for found in [UNINITIALIZED, EARLY_BOOTING, 3] {
        assert_eq!(
            step(Pending::AwaitFinished, false, Response::Loaded(found)),
            Hart { pending: Pending::AwaitFinished, leader: false }
        );
    }
    assert_eq!(
        step(Pending::AwaitFinished, false, Response::Loaded(FINISHED)),
        Hart { pending: Pending::TryLock, leader: false }
    );
    assert_eq!(step(Pending::TryLock, false, Response::Locked(true)).pending, Pending::ReadInfo);
    assert_eq!(step(Pending::TryLock, true, Response::Locked(false)).pending, Pending::Poll);
    assert_eq!(
        step(Pending::ReadInfo, false, Response::Info(Some(good))).pending,
        Pending::Publish(good)
    );
    assert_eq!(step(Pending::ReadInfo, false, Response::Info(Some(bad))).pending, Pending::Fatal);
    assert_eq!(step(Pending::ReadInfo, false, Response::Info(None)).pending, Pending::Fatal);
    assert_eq!(step(Pending::Publish(good), true, Response::Completed).pending, Pending::Poll);
    assert_eq!(step(Pending::Poll, true, Response::Polled(None)).pending, Pending::Poll);
    assert_eq!(
        step(Pending::Poll, true, Response::Polled(Some(good))).pending,
        Pending::Done(0x8020_0000)
    );
    assert_eq!(
        step(Pending::Done(5), true, Response::Polled(Some(good))).pending,
        Pending::Done(5)
    );
    assert_eq!(step(Pending::Fatal, true, Response::Completed).pending, Pending::Fatal);
    assert_eq!(
        step(Pending::BringUp, true, Response::Loaded(FINISHED)),
        Hart { pending: Pending::BringUp, leader: true }
    );
    assert_eq!(step(Pending::Poll, false, Response::Locked(true)).pending, Pending::Poll);
}

#[test]
fn shared_memory_answers_one_access_at_a_time() {
    let mut shared = Shared::new();
    assert_eq!(shared, Shared { boot: BootState::Uninitialized, handoff: Handoff::Free });
    assert_eq!(shared.perform(Pending::AwaitFinished, None), Response::Loaded(UNINITIALIZED));
    assert_eq!(shared.perform(Pending::CompareExchange, None), Response::Exchanged(UNINITIALIZED));
    assert_eq!(shared.boot, BootState::EarlyBooting);
    assert_eq!(shared.perform(Pending::CompareExchange, None), Response::Exchanged(EARLY_BOOTING));
    assert_eq!(shared.boot, BootState::EarlyBooting);
    assert_eq!(shared.perform(Pending::BringUp, None), Response::Completed);
    assert_eq!(shared.perform(Pending::StoreFinished, None), Response::Completed);
    assert_eq!(shared.boot, BootState::Finished);
    assert_eq!(shared.perform(Pending::CompareExchange, None), Response::Exchanged(FINISHED));
    assert_eq!(shared.perform(Pending::AwaitFinished, None), Response::Loaded(FINISHED));
    assert_eq!(shared.perform(Pending::Poll, None), Response::Polled(None));
    assert_eq!(shared.perform(Pending::TryLock, None), Response::Locked(true));
    assert_eq!(shared.handoff, Handoff::Claimed);
    assert_eq!(shared.perform(Pending::TryLock, None), Response::Locked(false));
    assert_eq!(shared.perform(Pending::Poll, None), Response::Polled(None));
    let record = info(MAGIC, 9);
    assert_eq!(shared.perform(Pending::ReadInfo, Some(record)), Response::Info(Some(record)));
    assert_eq!(shared.perform(Pending::ReadInfo, None), Response::Info(None));
    assert_eq!(shared.perform(Pending::Publish(record), None), Response::Completed);
    assert_eq!(shared.handoff, Handoff::Published(record));
    assert_eq!(shared.perform(Pending::TryLock, None), Response::Locked(false));
    assert_eq!(shared.perform(Pending::Poll, None), Response::Polled(Some(record)));
    assert_eq!(shared.perform(Pending::Done(9), None), Response::Completed);
    assert_eq!(shared.perform(Pending::Fatal, None), Response::Completed);
    assert_eq!(shared, Shared { boot: BootState::Finished, handoff: Handoff::Published(record) });
}

#[test]
fn dynamic_information_is_five_words() {
    let record = DynamicInfo::from_words([1, 2, 3, 4, 5]);
    assert_eq!(
        record,
        DynamicInfo { magic: 1, version: 2, next_addr: 3, next_mode: 4, options: 5 }
    );
    assert!(record.is_valid(1));
    assert!(!record.is_valid(2));
    assert!(!info(MAGIC, 0).is_valid(0));
}
