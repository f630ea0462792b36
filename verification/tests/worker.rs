use tx_prover::worker::{same_worker, HealthCheck, ServingStatus, Worker};

#[test]
fn new_worker_is_available_at_its_address() {
    let worker = Worker::new("127.0.0.1:8080".to_string());
    assert_eq!(worker.address(), "127.0.0.1:8080");
    assert!(worker.is_available());
}

#[test]
fn availability_can_be_set_and_leaves_the_address() {
    let mut worker = Worker::new("10.0.0.1:50051".to_string());
    worker.set_availability(false);
    assert!(!worker.is_available());
    assert_eq!(worker.address(), "10.0.0.1:50051");
    worker.set_availability(true);
    assert!(worker.is_available());
}

#[test]
fn only_a_serving_answer_is_healthy() {
    let worker = Worker::new("10.0.0.1:50051".to_string());
    assert!(worker.is_healthy(HealthCheck::Answered(ServingStatus::Serving)));
    assert!(!worker.is_healthy(HealthCheck::Answered(ServingStatus::NotServing)));
    assert!(!worker.is_healthy(HealthCheck::Answered(ServingStatus::Unknown)));
    assert!(!worker.is_healthy(HealthCheck::Answered(ServingStatus::ServiceUnknown)));
    assert!(!worker.is_healthy(HealthCheck::Failed));
}

#[test]
fn health_does_not_depend_on_availability() {
    let mut worker = Worker::new("10.0.0.1:50051".to_string());
    worker.set_availability(false);
    assert!(worker.is_healthy(HealthCheck::Answered(ServingStatus::Serving)));
}

#[test]
fn workers_are_equal_by_address_alone() {
    let a = Worker::new("10.0.0.1:50051".to_string());
    let mut b = Worker::new("10.0.0.1:50051".to_string());
    let c = Worker::new("10.0.0.2:50051".to_string());
    b.set_availability(false);
    assert!(a == b);
    assert!(a != c);
    assert!(same_worker(&a, &b));
    assert!(!same_worker(&b, &c));
}

#[test]
fn cloned_worker_is_the_same_worker() {
    let mut worker = Worker::new("10.0.0.1:50051".to_string());
    worker.set_availability(false);
    let copy = worker.clone();
    assert!(copy == worker);
    assert_eq!(copy.address(), worker.address());
    assert_eq!(copy.is_available(), worker.is_available());
}
