use aojia::dispatch::DispatchCache;
use aojia::engine::{wire_order, Action, Dispatcher, Event, Phase};
use aojia::error::BridgeError;
use aojia::slots::OutSlots;
use aojia::value::GenericValue;

/// A stand-in for the remote object: it knows a few method names, counts how
/// often names are resolved, and records the wire blocks it receives.
struct MockTransport {
    names: Vec<(&'static str, i32)>,
    resolutions: usize,
    submitted: Vec<Vec<GenericValue>>,
}

impl MockTransport {
    fn new() -> MockTransport {
        MockTransport {
            names: vec![("VerS", 1), ("GetCPU", 2), ("FindWindow", 3)],
            resolutions: 0,
            submitted: Vec::new(),
        }
    }

    fn resolve(&mut self, name: &str) -> Result<i32, i32> {
        self.resolutions += 1;
        match self.names.iter().find(|(n, _)| *n == name) {
            Some((_, id)) => Ok(*id),
            None => Err(-2147352570),
        }
    }
}

fn run_call(
    d: &mut Dispatcher,
    t: &mut MockTransport,
    name: &str,
    args: Vec<GenericValue>,
    reply: Result<GenericValue, i32>,
) -> Result<GenericValue, BridgeError> {
    let (mut call, mut action) = d.begin_call(name, args);
    let mut reply = Some(reply);
    loop {
        action = match action {
            Action::ResolveName => {
                let ev = Event::Resolved(t.resolve(call.name()));
                d.advance(&mut call, ev)
            }
            Action::Invoke(_) => {
                let block: Vec<GenericValue> = call
                    .wire_args()
                    .iter()
                    .map(|v| v.coerce_to(v.tag()).unwrap())
                    .collect();
                t.submitted.push(block);
                d.advance(&mut call, Event::Returned(reply.take().unwrap()))
            }
            Action::Complete(r) => return r,
        };
    }
}

#[test]
fn name_is_resolved_once_per_handle() {
    let mut d = Dispatcher::new();
    let mut t = MockTransport::new();
    for _ in 0..3 {
        let r = run_call(&mut d, &mut t, "VerS", vec![], Ok(GenericValue::from_str("1.0")));
        assert_eq!(r, Ok(GenericValue::from_str("1.0")));
    }
    assert_eq!(t.resolutions, 1);
    assert_eq!(d.cached_id("VerS"), Some(1));
}

#[test]
fn second_call_goes_straight_to_invoke() {
    let mut d = Dispatcher::new();
    let mut t = MockTransport::new();
    run_call(&mut d, &mut t, "FindWindow", vec![], Ok(GenericValue::from_i32(0))).unwrap();
    let (call, action) = d.begin_call("FindWindow", vec![]);
    assert!(matches!(action, Action::Invoke(3)));
    assert_eq!(call.phase(), Phase::AwaitingResult);
}

#[test]
fn unknown_name_is_a_resolution_error_and_not_cached() {
    let mut d = Dispatcher::new();
    let mut t = MockTransport::new();
    let r = run_call(&mut d, &mut t, "NoSuchMethod", vec![], Ok(GenericValue::Empty));
    assert_eq!(r, Err(BridgeError::NameResolution(-2147352570)));
    assert_eq!(d.cached_id("NoSuchMethod"), None);
    assert!(t.submitted.is_empty());
    let r2 = run_call(&mut d, &mut t, "NoSuchMethod", vec![], Ok(GenericValue::Empty));
    assert!(r2.is_err());
    assert_eq!(t.resolutions, 2);
}

#[test]
fn invocation_failure_is_reported_and_handle_stays_usable() {
    let mut d = Dispatcher::new();
    let mut t = MockTransport::new();
    let r = run_call(&mut d, &mut t, "VerS", vec![], Err(-2147352567));
    assert_eq!(r, Err(BridgeError::Invocation(-2147352567)));
    let ok = run_call(&mut d, &mut t, "VerS", vec![], Ok(GenericValue::from_str("2")));
    assert_eq!(ok, Ok(GenericValue::from_str("2")));
    assert_eq!(t.resolutions, 1);
}

#[test]
fn event_out_of_sequence_ends_the_call() {
    let mut d = Dispatcher::new();
    let (mut call, action) = d.begin_call("VerS", vec![]);
    assert!(matches!(action, Action::ResolveName));
    let a = d.advance(&mut call, Event::Returned(Ok(GenericValue::Empty)));
    assert!(matches!(a, Action::Complete(Err(BridgeError::OutOfSequence))));
    assert_eq!(call.phase(), Phase::Finished);
    assert_eq!(d.cached_id("VerS"), None);
}

#[test]
fn wire_order_reverses_declared_arguments() {
    assert_eq!(wire_order(vec![]), vec![]);
    assert_eq!(wire_order(vec![GenericValue::from_i32(1)]), vec![GenericValue::from_i32(1)]);
    let declared: Vec<GenericValue> = (1..=7).map(GenericValue::from_i32).collect();
    let expected: Vec<GenericValue> = (1..=7).rev().map(GenericValue::from_i32).collect();
    assert_eq!(wire_order(declared), expected);
}

#[test]
fn three_arguments_are_submitted_last_first() {
    let mut d = Dispatcher::new();
    let mut t = MockTransport::new();
    let args = vec![
        GenericValue::from_i32(10),
        GenericValue::from_str("title"),
        GenericValue::from_bool(true),
    ];
    run_call(&mut d, &mut t, "FindWindow", args, Ok(GenericValue::from_i32(5))).unwrap();
    assert_eq!(
        t.submitted[0],
        vec![
            GenericValue::from_bool(true),
            GenericValue::from_str("title"),
            GenericValue::from_i32(10),
        ]
    );
}

#[test]
fn two_output_parameters_round_trip() {
    let mut d = Dispatcher::new();
    let mut t = MockTransport::new();
    let mut slots = OutSlots::new();
    let kind_ref = slots.reserve();
    let id_ref = slots.reserve();
    let r = run_call(&mut d, &mut t, "GetCPU", vec![kind_ref, id_ref], Ok(GenericValue::from_i32(1)));
    assert_eq!(t.submitted[0], vec![GenericValue::by_ref(1), GenericValue::by_ref(0)]);
    // the remote object writes through the references it was given
    slots.store(0, GenericValue::from_str("GenuineIntel"));
    slots.store(1, GenericValue::from_str("BFEBFBFF000906EA"));
    assert_eq!(r.unwrap().to_i32(), Ok(1));
    assert_eq!(slots.len(), 2);
    assert_eq!(slots.get(0).to_string(), Ok("GenuineIntel".to_string()));
    assert_eq!(slots.get(1).to_string(), Ok("BFEBFBFF000906EA".to_string()));
}

#[test]
fn dispatch_cache_records_and_overwrites() {
    let mut c = DispatchCache::new();
    assert_eq!(c.lookup("a"), None);
    c.record("a", 4);
    c.record("b", 5);
    assert_eq!(c.lookup("a"), Some(4));
    assert_eq!(c.lookup("b"), Some(5));
    c.record("a", 9);
    assert_eq!(c.lookup("a"), Some(9));
    assert_eq!(c.lookup("c"), None);
}
