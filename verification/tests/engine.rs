use paradise::error::EngineError;
use paradise::paradise::{descriptor, Action, Event, Paradise, Turn, QUEUE_ENTRIES};
use paradise::queue::{Completion, Operation};
use paradise::token::{Category, Token};

const A: i32 = 30;
const B: i32 = 31;

fn bind_accept(idx: u64) -> Token {
    Token::encode(Category::BindAccept, idx).unwrap()
}

fn accept(listener: i32, idx: u64) -> Operation {
    Operation::Accept {
        listener,
        token: bind_accept(idx),
    }
}

fn write(descriptor: i32) -> Operation {
    Operation::Write {
        descriptor,
        token: Token(0),
    }
}

fn completed(token: Token, result: Result<u32, i32>) -> Event {
    Event::Completed(Completion { token, result })
}

fn engine_with_a_and_b() -> Paradise {
    let mut engine = Paradise::new();
    let armed = engine.init_binds(&vec![A, B]);
    assert_eq!(armed, Ok(Action::Submit(vec![accept(A, 0), accept(B, 1)])));
    engine
}

fn listeners(engine: &Paradise) -> Vec<i32> {
    let binds = engine.binds();
    (0..binds.len() as u64)
        .map(|idx| binds.get(idx).unwrap())
        .collect()
}

#[test]
fn new_engine_is_empty() {
    let engine = Paradise::new();
    assert_eq!(QUEUE_ENTRIES, 16);
    assert_eq!(engine.binds().len(), 0);
    assert_eq!(engine.queue().len(), 0);
    assert_eq!(engine.queue().entries(), 16);
    assert!(!engine.is_done());
}

#[test]
fn two_addresses_get_indices_zero_and_one() {
    let mut engine = Paradise::new();
    let armed = engine.init_binds(&vec![A, B]);
    assert_eq!(
        armed,
        Ok(Action::Submit(vec![
            Operation::Accept {
                listener: A,
                token: Token(0x0001_0000_0000_0000)
            },
            Operation::Accept {
                listener: B,
                token: Token(0x0001_0000_0000_0001)
            },
        ]))
    );
    assert_eq!(engine.binds().get(0), Some(A));
    assert_eq!(engine.binds().get(1), Some(B));
    assert_eq!(engine.binds().len(), 2);
    assert_eq!(engine.queue().len(), 0);
}

#[test]
fn init_binds_without_sockets_submits_an_empty_batch() {
    let mut engine = Paradise::new();
    assert_eq!(engine.init_binds(&vec![]), Ok(Action::Submit(vec![])));
    assert_eq!(engine.binds().len(), 0);
}

#[test]
fn init_binds_continues_the_indices() {
    let mut engine = engine_with_a_and_b();
    assert_eq!(
        engine.init_binds(&vec![50, 51, 52]),
        Ok(Action::Submit(vec![
            accept(50, 2),
            accept(51, 3),
            accept(52, 4)
        ]))
    );
    assert_eq!(listeners(&engine), vec![A, B, 50, 51, 52]);
}

#[test]
fn init_binds_fills_exactly_the_queue() {
    let mut engine = Paradise::new();
    let sockets: Vec<i32> = (100..116).collect();
    let expected: Vec<Operation> = (0..16).map(|k| accept(100 + k as i32, k)).collect();
    assert_eq!(engine.init_binds(&sockets), Ok(Action::Submit(expected)));
    assert_eq!(listeners(&engine), sockets);
    assert_eq!(engine.queue().len(), 0);
}

#[test]
fn init_binds_stops_where_the_queue_is_full() {
    let mut engine = Paradise::new();
    let sockets: Vec<i32> = (100..117).collect();
    assert_eq!(engine.init_binds(&sockets), Err(EngineError::QueueFull));
    let expected: Vec<Operation> = (0..16).map(|k| accept(100 + k as i32, k)).collect();
    assert_eq!(engine.queue().prepared(), &expected);
    assert_eq!(listeners(&engine), (100..116).collect::<Vec<i32>>());
}

#[test]
fn init_binds_submits_what_was_prepared_before() {
    let mut engine = engine_with_a_and_b();
    let turn = engine.step(completed(bind_accept(1), Err(104)));
    assert_eq!(turn.result, Err(EngineError::Io { errno: 104 }));
    assert_eq!(
        engine.init_binds(&vec![60]),
        Ok(Action::Submit(vec![accept(B, 1), accept(60, 2)]))
    );
    assert_eq!(engine.queue().len(), 0);
}

#[test]
fn new_connection_rearms_then_greets_in_one_batch() {
    let mut engine = engine_with_a_and_b();
    let turn = engine.step(completed(bind_accept(0), Ok(45)));
    assert_eq!(
        turn,
        Turn {
            result: Ok(Action::Submit(vec![accept(A, 0), write(45)])),
            proceed: true
        }
    );
    assert_eq!(engine.queue().len(), 0);
    assert_eq!(listeners(&engine), vec![A, B]);
}

#[test]
fn failed_accept_rearms_and_writes_nothing() {
    let mut engine = engine_with_a_and_b();
    let turn = engine.step(completed(bind_accept(1), Err(24)));
    assert_eq!(
        turn,
        Turn {
            result: Err(EngineError::Io { errno: 24 }),
            proceed: true
        }
    );
    assert_eq!(engine.queue().prepared(), &vec![accept(B, 1)]);
    assert_eq!(listeners(&engine), vec![A, B]);
}

#[test]
fn rearmed_accept_of_a_failure_goes_out_with_the_next_batch() {
    let mut engine = engine_with_a_and_b();
    let failed = engine.step(completed(bind_accept(1), Err(24)));
    assert_eq!(failed.result, Err(EngineError::Io { errno: 24 }));
    let turn = engine.step(completed(bind_accept(0), Ok(8)));
    assert_eq!(
        turn.result,
        Ok(Action::Submit(vec![accept(B, 1), accept(A, 0), write(8)]))
    );
    assert_eq!(engine.queue().len(), 0);
}

#[test]
fn every_accept_completion_rearms_its_own_listener_first() {
    for (idx, listener) in [(0u64, A), (1u64, B)] {
        for result in [Ok(0u32), Ok(77), Err(1), Err(104)] {
            let mut engine = engine_with_a_and_b();
            let turn = engine.step(completed(bind_accept(idx), result));
            let enqueued = match turn.result {
                Ok(Action::Submit(batch)) => batch,
                _ => engine.queue().prepared().clone(),
            };
            assert_eq!(enqueued[0], accept(listener, idx));
            let accepts = enqueued
                .iter()
                .filter(|op| matches!(op, Operation::Accept { .. }))
                .count();
            assert_eq!(accepts, 1);
        }
    }
}

#[test]
fn category_seven_is_unknown_and_the_loop_goes_on() {
    let mut engine = engine_with_a_and_b();
    let turn = engine.step(completed(Token(0x0007_0000_0000_0000), Ok(3)));
    assert_eq!(
        turn,
        Turn {
            result: Err(EngineError::UnknownCategory { tag: 7 }),
            proceed: true
        }
    );
    assert_eq!(engine.queue().len(), 0);
    assert_eq!(listeners(&engine), vec![A, B]);
    let next = engine.step(completed(bind_accept(0), Ok(45)));
    assert_eq!(
        next.result,
        Ok(Action::Submit(vec![accept(A, 0), write(45)]))
    );
}

#[test]
fn unknown_categories_change_nothing() {
    for raw in [
        0x0002_0000_0000_0000u64,
        0x0002_0000_0000_0001,
        0x00FF_0000_0000_0000,
        0xFFFF_0000_0000_0000,
        u64::MAX,
    ] {
        for result in [Ok(5u32), Err(9)] {
            let mut engine = engine_with_a_and_b();
            let token = Token(raw);
            assert_eq!(
                engine.dispatch_event(token, result),
                Err(EngineError::UnknownCategory {
                    tag: token.category()
                })
            );
            assert_eq!(engine.queue().len(), 0);
            assert_eq!(listeners(&engine), vec![A, B]);
            assert!(!engine.is_done());
        }
    }
}

#[test]
fn accept_for_an_unregistered_listener_is_refused() {
    let mut engine = engine_with_a_and_b();
    for idx in [2u64, 3, 1 << 32, (1 << 48) - 1] {
        for result in [Ok(5u32), Err(9)] {
            let turn = engine.step(completed(bind_accept(idx), result));
            assert_eq!(
                turn,
                Turn {
                    result: Err(EngineError::UnknownListener { idx }),
                    proceed: true
                }
            );
            assert_eq!(engine.queue().len(), 0);
            assert_eq!(listeners(&engine), vec![A, B]);
        }
    }
}

#[test]
fn accept_on_an_engine_without_listeners_is_refused() {
    let mut engine = Paradise::new();
    assert_eq!(
        engine.handle_bind_accept(bind_accept(0), Ok(4)),
        Err(EngineError::UnknownListener { idx: 0 })
    );
    assert_eq!(engine.queue().len(), 0);
}

#[test]
fn unknown_listener_is_reported_even_when_the_queue_is_full() {
    let mut engine = engine_with_a_and_b();
    for _ in 0..16 {
        let turn = engine.step(completed(bind_accept(0), Err(5)));
        assert_eq!(turn.result, Err(EngineError::Io { errno: 5 }));
    }
    assert_eq!(engine.queue().len(), 16);
    let turn = engine.step(completed(bind_accept(2), Ok(1)));
    assert_eq!(turn.result, Err(EngineError::UnknownListener { idx: 2 }));
}

#[test]
fn single_completions_ask_for_nothing() {
    let mut engine = engine_with_a_and_b();
    assert_eq!(
        engine.dispatch_event(Token::encode(Category::Single, 9).unwrap(), Ok(5)),
        Ok(Action::Idle)
    );
    assert_eq!(
        engine.dispatch_event(Token::encode(Category::Single, 0).unwrap(), Err(32)),
        Ok(Action::Idle)
    );
    assert_eq!(engine.queue().len(), 0);
    assert_eq!(listeners(&engine), vec![A, B]);
}

#[test]
fn completion_of_the_greeting_is_a_single() {
    let mut engine = engine_with_a_and_b();
    let turn = engine.step(completed(bind_accept(0), Ok(45)));
    let greeting = match turn.result {
        Ok(Action::Submit(batch)) => batch[1],
        other => panic!("no batch: {:?}", other),
    };
    let token = match greeting {
        Operation::Write { token, .. } => token,
        other => panic!("no write: {:?}", other),
    };
    assert_eq!(Category::from_u64(token.category()), Some(Category::Single));
    assert_eq!(engine.step(completed(token, Ok(5))).result, Ok(Action::Idle));
}

#[test]
fn handle_bind_accept_keeps_the_identifier_it_was_given() {
    let mut engine = engine_with_a_and_b();
    let token = Token(0x0009_0000_0000_0001);
    assert_eq!(
        engine.handle_bind_accept(token, Ok(12)),
        Ok(Action::Submit(vec![
            Operation::Accept { listener: B, token },
            write(12)
        ]))
    );
}

#[test]
fn a_full_queue_refuses_the_rearm() {
    let mut engine = engine_with_a_and_b();
    for k in 0..16 {
        let turn = engine.step(completed(bind_accept(k % 2), Err(5)));
        assert_eq!(turn.result, Err(EngineError::Io { errno: 5 }));
        assert_eq!(engine.queue().len(), k as usize + 1);
    }
    let before = engine.queue().prepared().clone();
    for result in [Ok(3u32), Err(5)] {
        let turn = engine.step(completed(bind_accept(0), result));
        assert_eq!(
            turn,
            Turn {
                result: Err(EngineError::QueueFull),
                proceed: true
            }
        );
        assert_eq!(engine.queue().prepared(), &before);
    }
}

#[test]
fn one_free_slot_takes_the_rearm_and_refuses_the_greeting() {
    let mut engine = engine_with_a_and_b();
    for _ in 0..15 {
        let turn = engine.step(completed(bind_accept(1), Err(5)));
        assert_eq!(turn.result, Err(EngineError::Io { errno: 5 }));
    }
    let turn = engine.step(completed(bind_accept(0), Ok(3)));
    assert_eq!(turn.result, Err(EngineError::QueueFull));
    let mut expected = vec![accept(B, 1); 15];
    expected.push(accept(A, 0));
    assert_eq!(engine.queue().prepared(), &expected);
}

#[test]
fn two_free_slots_are_enough_for_a_new_connection() {
    let mut engine = engine_with_a_and_b();
    for _ in 0..14 {
        let turn = engine.step(completed(bind_accept(1), Err(5)));
        assert_eq!(turn.result, Err(EngineError::Io { errno: 5 }));
    }
    let turn = engine.step(completed(bind_accept(0), Ok(3)));
    let mut expected = vec![accept(B, 1); 14];
    expected.push(accept(A, 0));
    expected.push(write(3));
    assert_eq!(turn.result, Ok(Action::Submit(expected)));
    assert_eq!(engine.queue().len(), 0);
}

#[test]
fn failed_wait_changes_nothing() {
    let mut engine = engine_with_a_and_b();
    let turn = engine.step(Event::WaitFailed { errno: 4 });
    assert_eq!(
        turn,
        Turn {
            result: Err(EngineError::Wait { errno: 4 }),
            proceed: true
        }
    );
    assert_eq!(engine.queue().len(), 0);
    assert_eq!(listeners(&engine), vec![A, B]);
    assert!(!engine.is_done());
}

#[test]
fn shutdown_stops_the_loop_after_the_turn() {
    let mut engine = engine_with_a_and_b();
    engine.shutdown();
    assert!(engine.is_done());
    assert_eq!(listeners(&engine), vec![A, B]);
    assert_eq!(engine.queue().len(), 0);
    let turn = engine.step(completed(bind_accept(0), Ok(45)));
    assert_eq!(
        turn,
        Turn {
            result: Ok(Action::Submit(vec![accept(A, 0), write(45)])),
            proceed: false
        }
    );
    let turn = engine.step(Event::WaitFailed { errno: 4 });
    assert!(!turn.proceed);
    assert!(engine.is_done());
}

#[test]
fn descriptor_reads_the_count_as_signed() {
    assert_eq!(descriptor(0), 0);
    assert_eq!(descriptor(7), 7);
    assert_eq!(descriptor(0x7FFF_FFFF), i32::MAX);
    assert_eq!(descriptor(0x8000_0000), i32::MIN);
    assert_eq!(descriptor(0xFFFF_FFFF), -1);
    assert_eq!(descriptor(0xFFFF_FFFE), -2);
}
