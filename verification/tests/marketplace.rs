use stylus_sdk::alloy_primitives::Address;
use stylus_sdk::alloy_primitives::U256;
use task_marketplace::marketplace::TaskMarketplace;
use task_marketplace::task::MarketError;
use task_marketplace::task::Task;
use task_marketplace::task::Transfer;

fn alice() -> Address {
    Address::repeat_byte(0xa1)
}

fn bob() -> Address {
    Address::repeat_byte(0xb0)
}

fn carol() -> Address {
    Address::repeat_byte(0xc4)
}

fn amount(n: u64) -> U256 {
    U256::from(n)
}

#[test]
fn paint_fence_runs_its_full_course() {
    let mut market = TaskMarketplace::new();

    let id = market.create_task(alice(), String::from("paint fence"), amount(100));
    assert_eq!(id, 1);

    assert_eq!(market.accept_task(bob(), 1), Ok(()));
    assert_eq!(market.get_task(1).unwrap().assignee, Some(bob()));

    assert_eq!(market.accept_task(carol(), 1), Err(MarketError::AlreadyAssigned));

    assert_eq!(
        market.complete_task(bob(), 1),
        Ok(Transfer { recipient: bob(), amount: amount(100) })
    );
    assert!(market.get_task(1).unwrap().completed);

    assert_eq!(market.complete_task(bob(), 1), Err(MarketError::AlreadyCompleted));

    assert_eq!(
        market.get_task(1),
        Ok(Task {
            id: 1,
            description: String::from("paint fence"),
            reward: amount(100),
            creator: alice(),
            assignee: Some(bob()),
            completed: true,
        })
    );
}

#[test]
fn empty_marketplace_has_no_task_99() {
    let market = TaskMarketplace::new();
    assert_eq!(market.get_task(99), Err(MarketError::NotFound));
}

#[test]
fn new_marketplace_is_empty() {
    let market = TaskMarketplace::new();
    assert_eq!(market.task_count(), 0);
    assert_eq!(market.get_all_tasks(), Vec::<Task>::new());
    assert_eq!(market.get_task(0), Err(MarketError::NotFound));
    assert_eq!(market.get_task(1), Err(MarketError::NotFound));
}

#[test]
fn created_task_is_open_and_numbered() {
    let mut market = TaskMarketplace::new();
    assert_eq!(market.create_task(alice(), String::from("mow lawn"), amount(7)), 1);
    assert_eq!(market.create_task(bob(), String::new(), amount(0)), 2);
    assert_eq!(market.task_count(), 2);
    assert_eq!(
        market.get_task(1),
        Ok(Task {
            id: 1,
            description: String::from("mow lawn"),
            reward: amount(7),
            creator: alice(),
            assignee: None,
            completed: false,
        })
    );
    assert_eq!(
        market.get_task(2),
        Ok(Task {
            id: 2,
            description: String::new(),
            reward: amount(0),
            creator: bob(),
            assignee: None,
            completed: false,
        })
    );
    assert_eq!(market.get_task(3), Err(MarketError::NotFound));
}

#[test]
fn reward_is_carried_through_at_full_width() {
    let mut market = TaskMarketplace::new();
    market.create_task(alice(), String::from("audit"), U256::MAX);
    assert_eq!(market.accept_task(bob(), 1), Ok(()));
    assert_eq!(
        market.complete_task(bob(), 1),
        Ok(Transfer { recipient: bob(), amount: U256::MAX })
    );
}

#[test]
fn accept_of_unknown_task_is_not_found() {
    let mut market = TaskMarketplace::new();
    assert_eq!(market.accept_task(bob(), 1), Err(MarketError::NotFound));
    market.create_task(alice(), String::from("a"), amount(1));
    assert_eq!(market.accept_task(bob(), 0), Err(MarketError::NotFound));
    assert_eq!(market.accept_task(bob(), 2), Err(MarketError::NotFound));
    assert_eq!(market.accept_task(bob(), u64::MAX), Err(MarketError::NotFound));
    assert_eq!(market.get_task(1).unwrap().assignee, None);
}

#[test]
fn second_accept_by_same_identity_fails() {
    let mut market = TaskMarketplace::new();
    market.create_task(alice(), String::from("a"), amount(1));
    assert_eq!(market.accept_task(bob(), 1), Ok(()));
    assert_eq!(market.accept_task(bob(), 1), Err(MarketError::AlreadyAssigned));
    assert_eq!(market.get_task(1).unwrap().assignee, Some(bob()));
}

#[test]
fn second_accept_by_other_identity_fails() {
    let mut market = TaskMarketplace::new();
    market.create_task(alice(), String::from("a"), amount(1));
    assert_eq!(market.accept_task(bob(), 1), Ok(()));
    let before = market.get_all_tasks();
    assert_eq!(market.accept_task(carol(), 1), Err(MarketError::AlreadyAssigned));
    assert_eq!(market.get_all_tasks(), before);
    assert_eq!(market.get_task(1).unwrap().assignee, Some(bob()));
}

#[test]
fn accept_of_completed_task_fails() {
    let mut market = TaskMarketplace::new();
    market.create_task(alice(), String::from("a"), amount(1));
    market.accept_task(bob(), 1).unwrap();
    market.complete_task(bob(), 1).unwrap();
    assert_eq!(market.accept_task(carol(), 1), Err(MarketError::AlreadyAssigned));
    assert_eq!(market.get_task(1).unwrap().assignee, Some(bob()));
    assert!(market.get_task(1).unwrap().completed);
}

#[test]
fn creator_may_accept_and_complete_own_task() {
    let mut market = TaskMarketplace::new();
    market.create_task(alice(), String::from("self service"), amount(5));
    assert_eq!(market.accept_task(alice(), 1), Ok(()));
    assert_eq!(
        market.complete_task(alice(), 1),
        Ok(Transfer { recipient: alice(), amount: amount(5) })
    );
}

#[test]
fn complete_of_unknown_task_is_not_found() {
    let mut market = TaskMarketplace::new();
    assert_eq!(market.complete_task(bob(), 1), Err(MarketError::NotFound));
    market.create_task(alice(), String::from("a"), amount(1));
    assert_eq!(market.complete_task(bob(), 0), Err(MarketError::NotFound));
    assert_eq!(market.complete_task(bob(), 2), Err(MarketError::NotFound));
}

#[test]
fn complete_of_open_task_is_unauthorized() {
    let mut market = TaskMarketplace::new();
    market.create_task(alice(), String::from("a"), amount(1));
    assert_eq!(market.complete_task(alice(), 1), Err(MarketError::Unauthorized));
    assert_eq!(market.complete_task(bob(), 1), Err(MarketError::Unauthorized));
    let task = market.get_task(1).unwrap();
    assert_eq!(task.assignee, None);
    assert!(!task.completed);
}

#[test]
fn complete_by_other_identity_is_unauthorized() {
    let mut market = TaskMarketplace::new();
    market.create_task(alice(), String::from("a"), amount(1));
    market.accept_task(bob(), 1).unwrap();
    let before = market.get_all_tasks();
    assert_eq!(market.complete_task(carol(), 1), Err(MarketError::Unauthorized));
    assert_eq!(market.complete_task(alice(), 1), Err(MarketError::Unauthorized));
    assert_eq!(market.get_all_tasks(), before);
    assert!(!market.get_task(1).unwrap().completed);
}

#[test]
fn identities_differing_in_one_byte_are_distinct() {
    let near_bob = {
        let mut bytes = [0xb0u8; 20];
        bytes[19] = 0xb1;
        Address::from(bytes)
    };
    let mut market = TaskMarketplace::new();
    market.create_task(alice(), String::from("a"), amount(3));
    market.accept_task(bob(), 1).unwrap();
    assert_eq!(market.complete_task(near_bob, 1), Err(MarketError::Unauthorized));
    assert_eq!(
        market.complete_task(Address::from([0xb0u8; 20]), 1),
        Ok(Transfer { recipient: bob(), amount: amount(3) })
    );
}

#[test]
fn other_identity_on_completed_task_is_unauthorized() {
    let mut market = TaskMarketplace::new();
    market.create_task(alice(), String::from("a"), amount(1));
    market.accept_task(bob(), 1).unwrap();
    market.complete_task(bob(), 1).unwrap();
    assert_eq!(market.complete_task(carol(), 1), Err(MarketError::Unauthorized));
    assert!(market.get_task(1).unwrap().completed);
}

#[test]
fn two_completions_pay_once() {
    let mut market = TaskMarketplace::new();
    market.create_task(alice(), String::from("a"), amount(40));
    market.accept_task(bob(), 1).unwrap();
    let outcomes = vec![market.complete_task(bob(), 1), market.complete_task(bob(), 1)];
    assert_eq!(
        outcomes,
        vec![
            Ok(Transfer { recipient: bob(), amount: amount(40) }),
            Err(MarketError::AlreadyCompleted),
        ]
    );
    let payments = outcomes.iter().filter(|outcome| outcome.is_ok()).count();
    assert_eq!(payments, 1);
}

#[test]
fn all_tasks_come_in_ascending_order() {
    let mut market = TaskMarketplace::new();
    for n in 1..=25u64 {
        let id = market.create_task(alice(), format!("task {}", n), amount(n * 10));
        assert_eq!(id, n);
    }
    let all = market.get_all_tasks();
    assert_eq!(all.len(), 25);
    for (position, task) in all.iter().enumerate() {
        let n = position as u64 + 1;
        assert_eq!(task.id, n);
        assert_eq!(task.description, format!("task {}", n));
        assert_eq!(task.reward, amount(n * 10));
        assert_eq!(task.creator, alice());
        assert_eq!(task.assignee, None);
        assert!(!task.completed);
    }
}

#[test]
fn all_tasks_show_the_last_written_state() {
    let mut market = TaskMarketplace::new();
    market.create_task(alice(), String::from("one"), amount(1));
    market.create_task(alice(), String::from("two"), amount(2));
    market.create_task(bob(), String::from("three"), amount(3));
    market.accept_task(bob(), 2).unwrap();
    market.accept_task(carol(), 3).unwrap();
    market.complete_task(carol(), 3).unwrap();
    let all = market.get_all_tasks();
    assert_eq!(
        all,
        vec![
            Task {
                id: 1,
                description: String::from("one"),
                reward: amount(1),
                creator: alice(),
                assignee: None,
                completed: false,
            },
            Task {
                id: 2,
                description: String::from("two"),
                reward: amount(2),
                creator: alice(),
                assignee: Some(bob()),
                completed: false,
            },
            Task {
                id: 3,
                description: String::from("three"),
                reward: amount(3),
                creator: bob(),
                assignee: Some(carol()),
                completed: true,
            },
        ]
    );
    for task in &all {
        assert_eq!(market.get_task(task.id).as_ref(), Ok(task));
    }
    assert_eq!(market.get_all_tasks(), all);
}

#[test]
fn no_completed_task_lacks_an_assignee() {
    let mut market = TaskMarketplace::new();
    let people = [alice(), bob(), carol()];
    for round in 0..60u64 {
        let who = people[(round % 3) as usize];
        let id = round % 7;
        match round % 4 {
            0 => {
                market.create_task(who, format!("job {}", round), amount(round));
            }
            1 => {
                let _ = market.accept_task(who, id);
            }
            _ => {
                let _ = market.complete_task(who, id);
            }
        }
        for task in market.get_all_tasks() {
            assert!(!task.completed || task.assignee.is_some());
        }
    }
    assert!(market.get_all_tasks().iter().any(|task| task.completed));
}

#[test]
fn refused_requests_change_nothing() {
    let mut market = TaskMarketplace::new();
    market.create_task(alice(), String::from("a"), amount(1));
    market.create_task(alice(), String::from("b"), amount(2));
    market.accept_task(bob(), 2).unwrap();
    let before = market.get_all_tasks();
    assert!(market.accept_task(carol(), 2).is_err());
    assert!(market.accept_task(carol(), 3).is_err());
    assert!(market.complete_task(carol(), 1).is_err());
    assert!(market.complete_task(carol(), 2).is_err());
    assert!(market.complete_task(carol(), 9).is_err());
    assert_eq!(market.get_all_tasks(), before);
    assert_eq!(market.task_count(), 2);
}

#[test]
fn restore_takes_a_ledger_back() {
    let mut market = TaskMarketplace::new();
    market.create_task(alice(), String::from("one"), amount(1));
    market.create_task(bob(), String::from("two"), amount(2));
    market.accept_task(carol(), 1).unwrap();
    market.complete_task(carol(), 1).unwrap();
    let records = market.get_all_tasks();

    let mut restored = TaskMarketplace::restore(&records).expect("a ledger");
    assert_eq!(restored.get_all_tasks(), records);
    assert_eq!(restored.task_count(), 2);
    assert_eq!(restored.complete_task(carol(), 1), Err(MarketError::AlreadyCompleted));
    assert_eq!(restored.accept_task(alice(), 2), Ok(()));
    assert_eq!(restored.create_task(alice(), String::from("three"), amount(3)), 3);
}

#[test]
fn restore_of_nothing_is_empty() {
    let restored = TaskMarketplace::restore(&[]).expect("a ledger");
    assert_eq!(restored.task_count(), 0);
}

#[test]
fn restore_refuses_misnumbered_records() {
    let task = |id: u64| Task {
        id,
        description: String::from("x"),
        reward: amount(1),
        creator: alice(),
        assignee: None,
        completed: false,
    };
    assert!(TaskMarketplace::restore(&[task(0)]).is_none());
    assert!(TaskMarketplace::restore(&[task(2)]).is_none());
    assert!(TaskMarketplace::restore(&[task(1), task(1)]).is_none());
    assert!(TaskMarketplace::restore(&[task(1), task(3)]).is_none());
    assert!(TaskMarketplace::restore(&[task(2), task(1)]).is_none());
    assert!(TaskMarketplace::restore(&[task(1), task(2)]).is_some());
}

#[test]
fn restore_refuses_completion_without_assignee() {
    let broken = Task {
        id: 1,
        description: String::from("x"),
        reward: amount(1),
        creator: alice(),
        assignee: None,
        completed: true,
    };
    assert!(TaskMarketplace::restore(&[broken]).is_none());
}

#[test]
fn task_clone_is_equal() {
    let task = Task {
        id: 4,
        description: String::from("copy me"),
        reward: amount(9),
        creator: alice(),
        assignee: Some(bob()),
        completed: false,
    };
    assert_eq!(task.clone(), task);
}

#[test]
fn no_task_is_paid_twice() {
    let mut market = TaskMarketplace::new();
    let people = [alice(), bob(), carol()];
    let mut paid = vec![0u32; 6];
    for round in 0..200u64 {
        let who = people[((round / 3) % 3) as usize];
        let id = round % 6;
        match round % 5 {
            0 if market.task_count() < 5 => {
                market.create_task(who, format!("job {}", round), amount(id + 1));
            }
            1 | 2 => {
                let _ = market.accept_task(who, id);
            }
            _ => {
                if let Ok(payment) = market.complete_task(who, id) {
                    let task = market.get_task(id).unwrap();
                    assert_eq!(Some(payment.recipient), task.assignee);
                    assert_eq!(payment.amount, task.reward);
                    assert!(task.completed);
                    paid[id as usize] += 1;
                }
            }
        }
    }
    for task in market.get_all_tasks() {
        let expected = if task.completed { 1 } else { 0 };
        assert_eq!(paid[task.id as usize], expected);
    }
    assert_eq!(paid[0], 0);
    assert!(paid.iter().any(|&times| times == 1));
}
