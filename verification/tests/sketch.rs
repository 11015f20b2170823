use expected::{disappoint, expect, expected, Context, Disappoint, Expected, Slot};

#[test]
fn no_disappoints() {
    let (_, (), disappoints) = expected(Slot::new(), |mut slot: Slot| {
        expect(
            &mut slot,
            1 + 1 == 2,
            String::from("expectation disappointed: 1 + 1 == 2"),
            "tests/sketch.rs",
            6,
            9,
        );
        (slot, ())
    });
    assert_eq!(disappoints.len(), 0);
}

#[test]
fn has_one_disappoint() {
    let (_, (), disappoints) = expected(Slot::new(), |mut slot: Slot| {
        expect(
            &mut slot,
            1 + 2 == 2,
            String::from("expectation disappointed: 1 + 2 == 2"),
            "tests/sketch.rs",
            23,
            9,
        );
        (slot, ())
    });
    assert_eq!(disappoints.len(), 1);
}

#[test]
fn has_more_disappoints() {
    let (_, (), disappoints) = expected(Slot::new(), |mut slot: Slot| {
        expect(
            &mut slot,
            1 + 0 == 2,
            String::from("expectation disappointed: 1 + 0 == 2"),
            "tests/sketch.rs",
            40,
            9,
        );
        expect(
            &mut slot,
            1 + 1 == 2,
            String::from("expectation disappointed: 1 + 1 == 2"),
            "tests/sketch.rs",
            48,
            9,
        );
        expect(
            &mut slot,
            1 - 1 == -1,
            String::from("expectation disappointed: 1 - 1 == -1"),
            "tests/sketch.rs",
            56,
            9,
        );
        (slot, ())
    });
    assert_eq!(disappoints.len(), 2);
}

#[test]
fn empty_run_yields_empty_collection() {
    let (slot, value, disappoints) = expected(Slot::new(), |slot: Slot| (slot, 7u32));
    assert_eq!(value, 7);
    assert_eq!(disappoints.len(), 0);
    assert!(disappoints.is_empty());
    assert!(!slot.is_active());
}

#[test]
fn message_carries_condition_text() {
    let (_, (), disappoints) = expected(Slot::new(), |mut slot: Slot| {
        expect(
            &mut slot,
            1 + 2 == 2,
            String::from("expectation disappointed: 1 + 2 == 2"),
            "tests/sketch.rs",
            82,
            9,
        );
        (slot, ())
    });
    assert_eq!(disappoints.len(), 1);
    let record = disappoints.get(0);
    assert!(record.payload().contains("1 + 2 == 2"));
    assert_eq!(record.payload(), "expectation disappointed: 1 + 2 == 2");
    assert_eq!(record.file(), "tests/sketch.rs");
    assert_eq!(record.line(), 82);
    assert_eq!(record.column(), 9);
}

#[test]
fn records_kept_in_evaluation_order() {
    let (_, (), disappoints) = expected(Slot::new(), |mut slot: Slot| {
        expect(&mut slot, false, String::from("first"), "tests/sketch.rs", 103, 9);
        expect(&mut slot, true, String::from("never recorded"), "tests/sketch.rs", 104, 9);
        expect(&mut slot, false, String::from("second"), "tests/sketch.rs", 105, 9);
        expect(&mut slot, false, String::from("third"), "tests/sketch.rs", 106, 9);
        (slot, ())
    });
    assert_eq!(disappoints.len(), 3);
    assert_eq!(disappoints.get(0).payload(), "first");
    assert_eq!(disappoints.get(1).payload(), "second");
    assert_eq!(disappoints.get(2).payload(), "third");
}

#[test]
fn nested_runs_keep_their_records() {
    let (slot, inner_disappoints, outer_disappoints) = {
        let (slot, inner, outer) = expected(Slot::new(), |mut slot: Slot| {
            expect(&mut slot, false, String::from("outer before"), "tests/sketch.rs", 118, 9);
            let (slot, (), inner) = expected(slot, |mut slot: Slot| {
                expect(&mut slot, false, String::from("inner"), "tests/sketch.rs", 120, 13);
                (slot, ())
            });
            let mut slot = slot;
            expect(&mut slot, false, String::from("outer after"), "tests/sketch.rs", 124, 9);
            (slot, inner)
        });
        (slot, inner, outer)
    };
    assert!(!slot.is_active());
    assert_eq!(inner_disappoints.len(), 1);
    assert_eq!(inner_disappoints.get(0).payload(), "inner");
    assert_eq!(outer_disappoints.len(), 2);
    assert_eq!(outer_disappoints.get(0).payload(), "outer before");
    assert_eq!(outer_disappoints.get(1).payload(), "outer after");
}

#[test]
fn misuse_outside_any_run_is_harmless() {
    let mut slot = Slot::new();
    let recorded = disappoint(
        &mut slot,
        String::from("reported outside of any run"),
        "tests/sketch.rs",
        142,
        9,
    );
    assert!(!recorded);
    assert!(!slot.is_active());
    let (_, (), disappoints) = expected(slot, |slot: Slot| (slot, ()));
    assert_eq!(disappoints.len(), 0);
}

#[test]
fn unbind_with_nothing_bound_restores_nothing() {
    let mut slot = Slot::new();
    assert!(slot.unbind().is_none());
    assert!(!slot.is_active());
}

#[test]
fn drain_is_not_a_peek() {
    let mut context = Context::new();
    context.add_disappoint(Disappoint::new(
        String::from("only record"),
        "tests/sketch.rs",
        163,
        9,
    ));
    let first = context.take_disappoints();
    assert_eq!(first.len(), 1);
    assert_eq!(first.get(0).payload(), "only record");
    let second = context.take_disappoints();
    assert_eq!(second.len(), 0);
}

#[test]
fn with_futures() {
    // The suspension-aware adapter, stepped by hand as a future driver
    // would, with the suspension point between the second and the third
    // check.
    let mut slot = Slot::new();
    let mut run = Expected::new();
    run.begin_step(&mut slot);
    expect(
        &mut slot,
        1 + 0 == 2,
        String::from("expectation disappointed: 1 + 0 == 2"),
        "tests/sketch.rs",
        185,
        9,
    );
    expect(
        &mut slot,
        1 + 1 == 2,
        String::from("expectation disappointed: 1 + 1 == 2"),
        "tests/sketch.rs",
        193,
        9,
    );
    run.end_step(&mut slot);
    run.begin_step(&mut slot);
    expect(
        &mut slot,
        1 - 1 == -1,
        String::from("expectation disappointed: 1 - 1 == -1"),
        "tests/sketch.rs",
        202,
        9,
    );
    run.end_step(&mut slot);
    let disappoints = run.finish();
    assert_eq!(disappoints.len(), 2);
}

#[test]
fn suspended_run_accumulates_in_order() {
    let mut slot = Slot::new();
    let mut run = Expected::new();
    run.begin_step(&mut slot);
    expect(&mut slot, false, String::from("before suspending"), "tests/sketch.rs", 216, 9);
    run.end_step(&mut slot);
    assert!(run.is_idle());
    assert!(!slot.is_active());
    run.begin_step(&mut slot);
    expect(&mut slot, false, String::from("after resuming"), "tests/sketch.rs", 221, 9);
    run.end_step(&mut slot);
    let disappoints = run.finish();
    assert_eq!(disappoints.len(), 2);
    assert_eq!(disappoints.get(0).payload(), "before suspending");
    assert_eq!(disappoints.get(1).payload(), "after resuming");
}

#[test]
fn interleaved_runs_do_not_cross_contaminate() {
    // Two suspendable runs making progress in turns on one worker: each
    // only ever sees its own context while it is being advanced.
    let mut slot = Slot::new();
    let mut first = Expected::new();
    let mut second = Expected::new();
    first.begin_step(&mut slot);
    expect(&mut slot, false, String::from("first run, step one"), "tests/sketch.rs", 237, 9);
    first.end_step(&mut slot);
    second.begin_step(&mut slot);
    expect(&mut slot, false, String::from("second run"), "tests/sketch.rs", 240, 9);
    second.end_step(&mut slot);
    first.begin_step(&mut slot);
    expect(&mut slot, false, String::from("first run, step two"), "tests/sketch.rs", 243, 9);
    first.end_step(&mut slot);
    let first_records = first.finish();
    let second_records = second.finish();
    assert_eq!(first_records.len(), 2);
    assert_eq!(first_records.get(0).payload(), "first run, step one");
    assert_eq!(first_records.get(1).payload(), "first run, step two");
    assert_eq!(second_records.len(), 1);
    assert_eq!(second_records.get(0).payload(), "second run");
}

#[test]
fn independent_slots_never_interfere() {
    // Two units of execution, each with its own active-binding slot: a
    // report on one never lands in a run bound on the other.
    let slot_a = Slot::new();
    let slot_b = Slot::new();
    let (_, (), from_a) = expected(slot_a, |mut slot: Slot| {
        expect(&mut slot, false, String::from("only in the first unit"), "tests/sketch.rs", 262, 9);
        (slot, ())
    });
    let (_, (), from_b) = expected(slot_b, |slot: Slot| (slot, ()));
    assert_eq!(from_a.len(), 1);
    assert_eq!(from_a.get(0).payload(), "only in the first unit");
    assert_eq!(from_b.len(), 0);
}
