use tx_latency::game::{Direction, Game, Position, Snake, BOARD_WIDTH};
use tx_latency::inflight::{InFlight, MOVE_CAP};
use tx_latency::ledger::{Ledger, LedgerEntry, TxStatus};
use tx_latency::method::TxMethod;
use tx_latency::rpc::{
    raw_tx_param, RealtimeMiddlewareError, RealtimeTransactionMiddleware, SyncMiddlewareError,
    SyncTransactionMiddleware, REALTIME_METHOD, SYNC_METHOD,
};

#[test]
fn raw_param_is_prefixed_lowercase_hex() {
    assert_eq!(raw_tx_param(&[0x02, 0xab, 0x00, 0xff]), "0x02ab00ff");
    assert_eq!(raw_tx_param(&[]), "0x");
}

#[test]
fn middlewares_name_their_methods() {
    let s = SyncTransactionMiddleware::new(7u8);
    assert_eq!(*s.inner(), 7);
    assert_eq!(s.method(), SYNC_METHOD);
    assert_eq!(s.method(), "eth_sendRawTransactionSync");
    assert_eq!(s.request_param(&[0x10]), "0x10");
    let r = RealtimeTransactionMiddleware::new("inner");
    assert_eq!(*r.inner(), "inner");
    assert_eq!(r.method(), REALTIME_METHOD);
    assert_eq!(r.request_param(&[0xc0, 0x01]), "0xc001");
}

#[test]
fn middleware_errors_expose_inner() {
    let e: SyncMiddlewareError<u32> = SyncMiddlewareError::from_err(5);
    assert_eq!(e.as_inner(), Some(&5));
    let e: SyncMiddlewareError<u32> = SyncMiddlewareError::RpcError("down".to_string());
    assert_eq!(e.as_inner(), None);
    let e: RealtimeMiddlewareError<u32> = RealtimeMiddlewareError::from_err(8);
    assert_eq!(e.as_inner(), Some(&8));
}

#[test]
fn method_names_parse_in_any_case() {
    assert_eq!(TxMethod::from_str("ASYNC"), Ok(TxMethod::Async));
    assert_eq!(TxMethod::from_str("Rise"), Ok(TxMethod::Rise));
    assert_eq!(TxMethod::from_str("mega"), Err("Invalid method: mega".to_string()));
    assert_eq!(TxMethod::from_str("Fast"), Err("Invalid method: Fast".to_string()));
    assert_eq!(TxMethod::from_str(&TxMethod::Rise.name()), Ok(TxMethod::Rise));
    assert_eq!(TxMethod::Mega.name(), "mega");
    assert!(!TxMethod::Async.is_single_round_trip());
    assert!(TxMethod::Rise.is_single_round_trip());
}

#[test]
fn endpoint_naming_rise_selects_sync_method() {
    assert_eq!(TxMethod::for_endpoint("https://testnet.RISEchain.com", TxMethod::Async), TxMethod::Rise);
    assert_eq!(TxMethod::for_endpoint("http://localhost:8545", TxMethod::Mega), TxMethod::Mega);
}

#[test]
fn snake_moves_turns_and_grows() {
    let mut s = Snake::new(Position { x: 5, y: 5 });
    let cells: Vec<Position> = s.body().iter().copied().collect();
    assert_eq!(cells, vec![Position { x: 5, y: 5 }, Position { x: 4, y: 5 }, Position { x: 3, y: 5 }]);
    s.change_direction(Direction::Left);
    assert_eq!(s.direction(), Direction::Right);
    s.change_direction(Direction::Up);
    assert_eq!(s.move_forward(), Some(Position { x: 5, y: 4 }));
    assert_eq!(s.body().len(), 3);
    assert_eq!(s.body()[0], Position { x: 5, y: 4 });
    assert_eq!(s.body()[2], Position { x: 4, y: 5 });
    s.grow();
    assert_eq!(s.body().len(), 4);
    assert_eq!(s.body()[3], s.body()[2]);
}

#[test]
fn snake_stops_at_wall_and_body() {
    let mut s = Snake::new(Position { x: BOARD_WIDTH - 1, y: 0 });
    assert_eq!(s.move_forward(), None);
    s.change_direction(Direction::Up);
    assert_eq!(s.move_forward(), None);
    let mut t = Snake::new(Position { x: 5, y: 5 });
    t.grow();
    t.grow();
    t.change_direction(Direction::Down);
    t.move_forward();
    t.change_direction(Direction::Left);
    t.move_forward();
    t.change_direction(Direction::Up);
    assert_eq!(t.move_forward(), None);
    assert_eq!(Direction::Up.opposite(), Direction::Down);
}

#[test]
fn game_applies_confirmed_move_then_moves() {
    let mut g = Game::new();
    assert_eq!(g.snake().body()[0], Position { x: 10, y: 10 });
    assert!(!g.snake().body().contains(&g.food()));
    assert!(g.is_valid_move(Direction::Up));
    assert!(!g.is_valid_move(Direction::Left));
    let mut l: Ledger<Direction> = Ledger::new();
    let mut slots = InFlight::new(MOVE_CAP);
    slots.try_acquire();
    l.record(LedgerEntry::submitted(0, [1; 32], TxStatus::Confirmed, 0, Some(10), Some(Direction::Up)));
    g.tick(&mut l, &mut slots, 0);
    assert_eq!(g.snake().direction(), Direction::Up);
    assert_eq!(g.snake().body()[0], Position { x: 10, y: 9 });
    assert!(l.snapshot()[0].applied);
    assert_eq!(slots.count(), 0);
    assert!(!g.is_over());
}

#[test]
fn game_ends_at_wall_and_reset_restarts() {
    let mut g = Game::new();
    let mut l: Ledger<Direction> = Ledger::new();
    let mut slots = InFlight::new(MOVE_CAP);
    for _ in 0..30 {
        g.tick(&mut l, &mut slots, 0);
    }
    assert!(g.is_over());
    assert_eq!(g.snake().body()[0].x, BOARD_WIDTH - 1);
    g.reset();
    assert!(!g.is_over());
    assert_eq!(g.score(), 0);
    assert_eq!(g.speed(), 200);
}

#[test]
fn game_eats_food_and_scores() {
    let mut g = Game::new();
    let mut l: Ledger<Direction> = Ledger::new();
    let mut slots = InFlight::new(MOVE_CAP);
    let free = g.free_cells();
    assert_eq!(free.len(), 400 - 3);
    assert_eq!(free[0], Position { x: 0, y: 0 });
    assert_eq!(free[21], Position { x: 1, y: 1 });
    let target = free.iter().position(|p| *p == Position { x: 11, y: 10 }).unwrap();
    assert_eq!(target, 10 * 20 + 11 - 3);
    g.place_food_at(target);
    assert_eq!(g.food(), Position { x: 11, y: 10 });
    g.tick(&mut l, &mut slots, 0);
    assert_eq!(g.score(), 10);
    assert_eq!(g.snake().body().len(), 4);
    assert_ne!(g.food(), Position { x: 11, y: 10 });
    assert!(!g.snake().body().contains(&g.food()));
}

#[test]
fn game_update_without_moves_keeps_heading() {
    let mut g = Game::new();
    let mut l: Ledger<Direction> = Ledger::new();
    let mut slots = InFlight::new(MOVE_CAP);
    g.update(&mut l, &mut slots);
    assert!(!g.is_over());
    assert_eq!(g.snake().body()[0], Position { x: 11, y: 10 });
    assert!(!g.snake().body().contains(&g.food()));
}

#[test]
fn game_tick_applies_oldest_of_two_confirmed_moves() {
    let mut g = Game::new();
    let mut l: Ledger<Direction> = Ledger::new();
    let mut slots = InFlight::new(MOVE_CAP);
    slots.try_acquire();
    slots.try_acquire();
    l.record(LedgerEntry::submitted(1, [1; 32], TxStatus::Pending, 0, None, Some(Direction::Up)));
    l.record(LedgerEntry::submitted(2, [2; 32], TxStatus::Pending, 0, None, Some(Direction::Down)));
    l.update_status(2, TxStatus::Confirmed, Some(30));
    l.update_status(1, TxStatus::Confirmed, Some(60));
    g.tick(&mut l, &mut slots, 0);
    assert_eq!(g.snake().direction(), Direction::Up);
    assert!(l.snapshot()[0].applied);
    assert!(!l.snapshot()[1].applied);
    assert_eq!(slots.count(), 1);
}

#[test]
fn place_food_wraps_pick_over_free_cells() {
    let mut g = Game::new();
    let n = g.free_cells().len();
    g.place_food_at(n + 2);
    assert_eq!(g.food(), Position { x: 2, y: 0 });
}
