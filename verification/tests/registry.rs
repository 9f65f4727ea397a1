use flow_inspector::registry::Registry;

/// A subscriber that records what it was sent and fails on demand.
struct Sink {
    name: &'static str,
    broken: bool,
    received: Vec<String>,
}

impl Sink {
    fn new(name: &'static str, broken: bool) -> Sink {
        Sink { name, broken, received: Vec::new() }
    }

    fn send(&mut self, event: &str) -> bool {
        if self.broken {
            false
        } else {
            self.received.push(event.to_string());
            true
        }
    }
}

fn broadcast(registry: &mut Registry<Sink>, event: &str) -> usize {
    let mut delivered = Vec::new();
    for index in 0..registry.len() {
        delivered.push(registry.handle_mut(index).send(event));
    }
    registry.prune(&delivered)
}

fn names(registry: &Registry<Sink>) -> Vec<&'static str> {
    (0..registry.len()).map(|index| registry.handle(index).name).collect()
}

#[test]
fn failed_subscriber_is_pruned_and_the_others_go_on() {
    let mut registry = Registry::new();
    registry.add(Sink::new("first", false));
    registry.add(Sink::new("second", true));
    registry.add(Sink::new("third", false));
    assert_eq!(registry.len(), 3);

    assert_eq!(broadcast(&mut registry, "one"), 1);
    assert_eq!(registry.len(), 2);
    assert_eq!(names(&registry), vec!["first", "third"]);
    assert_eq!(registry.handle(0).received, vec!["one"]);
    assert_eq!(registry.handle(1).received, vec!["one"]);

    assert_eq!(broadcast(&mut registry, "two"), 0);
    assert_eq!(names(&registry), vec!["first", "third"]);
    assert_eq!(registry.handle(0).received, vec!["one", "two"]);
    assert_eq!(registry.handle(1).received, vec!["one", "two"]);
}

#[test]
fn prune_keeps_the_order_of_those_that_stay() {
    let mut registry = Registry::new();
    for id in 0..6u32 {
        registry.add(id);
    }
    assert_eq!(registry.prune(&[false, true, true, false, true, false]), 3);
    assert_eq!(registry.len(), 3);
    assert_eq!(*registry.handle(0), 1);
    assert_eq!(*registry.handle(1), 2);
    assert_eq!(*registry.handle(2), 4);
}

#[test]
fn prune_without_failures_removes_nobody() {
    let mut registry = Registry::new();
    registry.add('a');
    registry.add('b');
    assert_eq!(registry.prune(&[true, true]), 0);
    assert_eq!(registry.len(), 2);
    assert_eq!(*registry.handle(0), 'a');
    assert_eq!(*registry.handle(1), 'b');
}

#[test]
fn prune_with_only_failures_empties_the_registry() {
    let mut registry = Registry::new();
    registry.add(1u8);
    registry.add(2u8);
    assert!(!registry.is_empty());
    assert_eq!(registry.prune(&[false, false]), 2);
    assert!(registry.is_empty());
    assert_eq!(registry.prune(&[]), 0);
    assert_eq!(registry.prune(&[false]), 0);
}

#[test]
fn subscriber_without_an_outcome_stays() {
    let mut registry = Registry::new();
    registry.add(10u32);
    registry.add(20u32);
    registry.add(30u32);
    assert_eq!(registry.prune(&[false]), 1);
    assert_eq!(registry.len(), 2);
    assert_eq!(*registry.handle(0), 20);
    assert_eq!(*registry.handle(1), 30);
    assert_eq!(registry.prune(&[true, false, false, false]), 1);
    assert_eq!(registry.len(), 1);
    assert_eq!(*registry.handle(0), 20);
}

#[test]
fn subscriber_added_after_a_pass_gets_later_events_only() {
    let mut registry = Registry::new();
    registry.add(Sink::new("early", false));
    broadcast(&mut registry, "one");
    registry.add(Sink::new("late", false));
    broadcast(&mut registry, "two");
    assert_eq!(registry.handle(0).received, vec!["one", "two"]);
    assert_eq!(registry.handle(1).received, vec!["two"]);
}

#[test]
fn handle_mut_changes_only_its_subscriber() {
    let mut registry = Registry::new();
    registry.add(1u32);
    registry.add(2u32);
    *registry.handle_mut(1) = 7;
    assert_eq!(*registry.handle(0), 1);
    assert_eq!(*registry.handle(1), 7);
    assert_eq!(registry.len(), 2);
}
