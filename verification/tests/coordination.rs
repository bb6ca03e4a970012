use http_load_generator::batch::synthesize;
use http_load_generator::channel::BatchChannel;
use http_load_generator::cycle::BATCH_SIZE_MAX;
use http_load_generator::cycle::BATCH_SIZE_MIN;
use http_load_generator::cycle::CHANNEL_CAPACITY;
use http_load_generator::cycle::COHORT_SIZE;
use http_load_generator::cycle::WARMUP_MILLIS;
use http_load_generator::cycle::WindowBarrier;
use http_load_generator::experiment::ExperimentDefinition;
use http_load_generator::hosts::ExperimentReceiverConfig;
use http_load_generator::hosts::Host;
use http_load_generator::receiver::ExperimentReceiver;
use http_load_generator::receiver::StartupError;

fn three_host_config() -> ExperimentReceiverConfig {
    ExperimentReceiverConfig::new(vec![
        Host { address: String::from("alpha.example"), port: 8080 },
        Host { address: String::from("beta.example"), port: 8080 },
        Host { address: String::from("gamma.example"), port: 9090 },
    ])
}

#[test]
fn fleet_spawns_one_worker_per_host() {
    let receiver = ExperimentReceiver::new(three_host_config());
    let mut channel = BatchChannel::new(CHANNEL_CAPACITY);
    let workers = receiver.create_requestors(&mut channel);

    assert_eq!(workers.len(), 3);
    assert_eq!(channel.subscriber_count(), 3);
    let expected = ["alpha.example", "beta.example", "gamma.example"];
    for (i, worker) in workers.iter().enumerate() {
        assert_eq!(worker.host.address, expected[i]);
        assert_eq!(worker.warmup_millis, WARMUP_MILLIS);
    }
    assert_ne!(workers[0].subscription, workers[1].subscription);
    assert_ne!(workers[0].subscription, workers[2].subscription);
    assert_ne!(workers[1].subscription, workers[2].subscription);
}

#[test]
fn intake_closed_before_first_experiment_is_fatal() {
    let mut receiver = ExperimentReceiver::new(three_host_config());
    let outcome = receiver.add_first_experiment(None);
    assert_eq!(outcome, Err(StartupError::IntakeClosed));
    assert_eq!(receiver.registry_len(), 0);
}

#[test]
fn first_experiment_unblocks_generation() {
    let mut receiver = ExperimentReceiver::new(three_host_config());
    let outcome = receiver.add_first_experiment(Some(ExperimentDefinition { id: 1 }));
    assert_eq!(outcome, Ok(()));
    assert_eq!(receiver.registry_len(), 1);
}

#[test]
fn registry_is_non_decreasing() {
    let mut receiver = ExperimentReceiver::new(three_host_config());
    receiver
        .add_first_experiment(Some(ExperimentDefinition { id: 1 }))
        .unwrap();
    let mut previous = receiver.registry_len();
    let submissions: Vec<Vec<ExperimentDefinition>> = vec![
        vec![],
        vec![ExperimentDefinition { id: 2 }, ExperimentDefinition { id: 3 }],
        vec![],
        vec![ExperimentDefinition { id: 4 }],
    ];
    for pending in submissions {
        receiver.receive_experiments(&pending);
        let now = receiver.registry_len();
        assert!(now >= previous);
        previous = now;
    }
    assert_eq!(previous, 4);
}

#[test]
fn window_dispatches_full_cohort_within_size_range() {
    let mut receiver = ExperimentReceiver::new(three_host_config());
    receiver
        .add_first_experiment(Some(ExperimentDefinition { id: 7 }))
        .unwrap();
    let mut channel = BatchChannel::new(CHANNEL_CAPACITY);
    let observer = channel.subscribe();

    receiver.run_window(&vec![], &mut channel);

    assert_eq!(channel.total_published(), COHORT_SIZE);
    let mut received = 0;
    while let Some(batch) = channel.recv(observer) {
        assert!(BATCH_SIZE_MIN <= batch.len());
        assert!(batch.len() < BATCH_SIZE_MAX);
        received += 1;
    }
    assert_eq!(received, COHORT_SIZE);
}

#[test]
fn windows_do_not_overlap_until_barrier_closes() {
    let mut barrier = WindowBarrier::new(3);
    assert!(!barrier.is_closed());
    barrier.timer_fired();
    assert!(!barrier.is_closed());
    barrier.task_completed();
    barrier.task_completed();
    assert!(!barrier.is_closed());
    barrier.task_completed();
    assert!(barrier.is_closed());
    assert_eq!(barrier.completed(), 3);
}

#[test]
fn timely_subscriber_receives_every_batch_of_the_window() {
    let mut receiver = ExperimentReceiver::new(three_host_config());
    receiver
        .add_first_experiment(Some(ExperimentDefinition { id: 1 }))
        .unwrap();
    let mut channel = BatchChannel::new(CHANNEL_CAPACITY);
    let workers = receiver.create_requestors(&mut channel);

    receiver.run_window(&vec![], &mut channel);

    for worker in &workers {
        let mut received = 0;
        while let Some(_batch) = channel.recv(worker.subscription) {
            received += 1;
        }
        assert_eq!(received, COHORT_SIZE);
    }
}

#[test]
fn lagging_subscriber_skips_ahead_instead_of_blocking() {
    let snapshot = vec![ExperimentDefinition { id: 1 }];
    let mut channel = BatchChannel::new(2);
    let subscriber = channel.subscribe();

    channel.publish(synthesize(&snapshot, 1));
    channel.publish(synthesize(&snapshot, 2));
    channel.publish(synthesize(&snapshot, 3));

    let first = channel.recv(subscriber).unwrap();
    assert_eq!(first.len(), 2);
    let second = channel.recv(subscriber).unwrap();
    assert_eq!(second.len(), 3);
    assert!(channel.recv(subscriber).is_none());
}

#[test]
fn batches_derive_only_from_the_windows_snapshot() {
    let mut receiver = ExperimentReceiver::new(three_host_config());
    receiver
        .add_first_experiment(Some(ExperimentDefinition { id: 1 }))
        .unwrap();
    let mut channel = BatchChannel::new(CHANNEL_CAPACITY);
    let workers = receiver.create_requestors(&mut channel);

    receiver.run_window(&vec![], &mut channel);

    for worker in &workers {
        let mut received = 0;
        while let Some(batch) = channel.recv(worker.subscription) {
            for i in 0..batch.len() {
                assert_eq!(batch.query(i).experiment_id, 1);
            }
            received += 1;
        }
        assert!(received >= 1);
    }

    receiver.run_window(&vec![ExperimentDefinition { id: 2 }], &mut channel);

    for worker in &workers {
        while let Some(batch) = channel.recv(worker.subscription) {
            for i in 0..batch.len() {
                let id = batch.query(i).experiment_id;
                assert!(id == 1 || id == 2);
            }
        }
    }
}

#[test]
fn zero_hosts_still_completes_windows() {
    let mut receiver = ExperimentReceiver::new(ExperimentReceiverConfig::new(vec![]));
    receiver
        .add_first_experiment(Some(ExperimentDefinition { id: 1 }))
        .unwrap();
    let mut channel = BatchChannel::new(CHANNEL_CAPACITY);
    let workers = receiver.create_requestors(&mut channel);
    assert!(workers.is_empty());

    receiver.run_window(&vec![], &mut channel);
    receiver.run_window(&vec![], &mut channel);

    assert_eq!(channel.total_published(), 2 * COHORT_SIZE);
}

#[test]
fn shared_batches_are_identical_for_every_worker() {
    let snapshot = vec![
        ExperimentDefinition { id: 5 },
        ExperimentDefinition { id: 6 },
    ];
    let batch = synthesize(&snapshot, 4);
    assert_eq!(batch.len(), 4);
    let copy = batch.share();
    assert_eq!(copy.len(), batch.len());
    for i in 0..batch.len() {
        assert_eq!(copy.query(i), batch.query(i));
    }
    assert_eq!(batch.query(0).experiment_id, 5);
    assert_eq!(batch.query(1).experiment_id, 6);
    assert_eq!(batch.query(2).experiment_id, 5);
    assert_eq!(batch.query(3).experiment_id, 6);
}
