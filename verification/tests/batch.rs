use bb_chipotle::api_key::ApiKey;
use bb_chipotle::batch::BatchAction;
use bb_chipotle::batch::BatchRun;
use bb_chipotle::batch::LocationOutcome;
use bb_chipotle::error::GetError;
use bb_chipotle::locations::Location;
use bb_chipotle::summary::Price;
use bb_chipotle::summary::Summary;

fn locations(n: i32) -> Vec<Location> {
    (0..n)
        .map(|i| Location {
            id: i,
            zip_code: format!("{:05}", i),
        })
        .collect()
}

fn summary_for(id: i32) -> Summary {
    let p = Price {
        normal_price: 1,
        delivery_price: 2,
    };
    Summary {
        restaurant_id: id,
        veggie_bowl_price: p,
        chicken_bowl_price: p,
        steak_bowl_price: p,
    }
}

fn expect_chunk(run: &BatchRun) -> (usize, usize) {
    match run.next_action() {
        BatchAction::FetchChunk { start, end } => (start, end),
        other => panic!("expected a chunk, got {:?}", other),
    }
}

fn expect_delay(run: &BatchRun) -> u64 {
    match run.next_action() {
        BatchAction::Delay { milliseconds } => milliseconds,
        other => panic!("expected a delay, got {:?}", other),
    }
}

/// One outcome per chunk index; `failing` indices get an error outcome. The
/// outcomes are reported in reverse order, as a concurrent chunk might.
fn chunk_outcomes(run: &BatchRun, start: usize, end: usize, failing: &[usize]) -> Vec<LocationOutcome> {
    let mut outcomes = Vec::new();
    for index in (start..end).rev() {
        let id = run.location_at(index).id;
        let outcome = if failing.contains(&index) {
            Err(GetError::ResponseError(500))
        } else {
            Ok(summary_for(id))
        };
        outcomes.push(LocationOutcome { index, outcome });
    }
    outcomes
}

#[test]
fn batch_twelve_locations_in_three_chunks() {
    let mut run = BatchRun::new(locations(12), ApiKey::from_raw("key"), 5, 1000);
    assert_eq!(run.total(), 12);
    assert_eq!(run.completed(), 0);

    let (start, end) = expect_chunk(&run);
    assert_eq!((start, end), (0, 5));
    let outcomes = chunk_outcomes(&run, start, end, &[2]);
    run.record_chunk(outcomes);
    assert_eq!(run.completed(), 5);

    assert_eq!(expect_delay(&run), 1000);
    run.delay_elapsed();

    let (start, end) = expect_chunk(&run);
    assert_eq!((start, end), (5, 10));
    let outcomes = chunk_outcomes(&run, start, end, &[]);
    run.record_chunk(outcomes);
    assert_eq!(run.completed(), 10);

    assert_eq!(expect_delay(&run), 1000);
    run.delay_elapsed();

    let (start, end) = expect_chunk(&run);
    assert_eq!((start, end), (10, 12));
    let outcomes = chunk_outcomes(&run, start, end, &[]);
    run.record_chunk(outcomes);
    assert_eq!(run.completed(), 12);

    assert!(matches!(run.next_action(), BatchAction::Done));

    let results = run.into_results();
    assert_eq!(results.len(), 12);
    for (i, entry) in results.iter().enumerate() {
        assert_eq!(entry.location.id, i as i32);
        if i == 2 {
            assert!(matches!(entry.outcome, Err(GetError::ResponseError(500))));
        } else {
            assert_eq!(entry.outcome.as_ref().unwrap().restaurant_id, i as i32);
        }
    }
}

#[test]
fn batch_failure_does_not_stop_later_chunks() {
    let mut run = BatchRun::new(locations(4), ApiKey::from_raw("key"), 2, 10);
    let (start, end) = expect_chunk(&run);
    let outcomes = chunk_outcomes(&run, start, end, &[0, 1]);
    run.record_chunk(outcomes);
    run.delay_elapsed();
    let (start, end) = expect_chunk(&run);
    assert_eq!((start, end), (2, 4));
    let outcomes = chunk_outcomes(&run, start, end, &[]);
    run.record_chunk(outcomes);
    let results = run.into_results();
    assert_eq!(results.len(), 4);
    assert!(results[0].outcome.is_err());
    assert!(results[1].outcome.is_err());
    assert!(results[2].outcome.is_ok());
    assert!(results[3].outcome.is_ok());
}

#[test]
fn batch_empty_location_list_is_done_at_once() {
    let run = BatchRun::new(Vec::new(), ApiKey::from_raw("key"), 5, 1000);
    assert!(matches!(run.next_action(), BatchAction::Done));
    assert!(run.into_results().is_empty());
}

#[test]
fn batch_exact_multiple_has_full_chunks() {
    let mut run = BatchRun::new(locations(6), ApiKey::from_raw("key"), 3, 1);
    assert_eq!(expect_chunk(&run), (0, 3));
    let o = chunk_outcomes(&run, 0, 3, &[]);
    run.record_chunk(o);
    run.delay_elapsed();
    assert_eq!(expect_chunk(&run), (3, 6));
    let o = chunk_outcomes(&run, 3, 6, &[]);
    run.record_chunk(o);
    assert!(matches!(run.next_action(), BatchAction::Done));
}

#[test]
fn batch_shares_one_credential() {
    let run = BatchRun::new(locations(1), ApiKey::from_raw("shared-key"), 1, 0);
    assert_eq!(run.api_key().get(), "shared-key");
}
