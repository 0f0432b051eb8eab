use libxev::status::OsError;
use libxev::threadpool::{config_steps, Batch, Config, ConfigStep, Task, ThreadPool};

#[test]
fn config_default_keeps_libxev_defaults() {
    let c = Config::default();
    assert_eq!(c.stack_size, None);
    assert_eq!(c.max_threads, None);
}

#[test]
fn threadpool_init_status() {
    assert!(ThreadPool::new(0x100, 0).is_ok());
    assert_eq!(ThreadPool::new(0x100, 11).err(), Some(OsError { code: 11 }));
}

#[test]
fn schedule_hands_over_tasks_in_order() {
    let pool = ThreadPool::new(0x100, 0).unwrap();
    let mut batch = Batch::new();
    for i in 0..32usize {
        batch.push(Task::new(0x1000 + i * 0x40));
    }
    let tasks = pool.schedule(&mut batch);
    assert_eq!(tasks.len(), 32);
    for (i, t) in tasks.iter().enumerate() {
        assert_eq!(*t, 0x1000 + i * 0x40);
    }
    // The batch is empty afterwards and can be reused.
    assert!(pool.schedule(&mut batch).is_empty());
    batch.push(Task::new(0x9000));
    assert_eq!(pool.schedule(&mut batch), vec![0x9000]);
}

#[test]
fn default_batch_is_empty() {
    let pool = ThreadPool::new(0x100, 0).unwrap();
    let mut batch = Batch::default();
    assert!(pool.schedule(&mut batch).is_empty());
}

#[test]
fn config_steps_follow_settings() {
    assert!(config_steps(&Config::default()).is_empty());
    let c = Config { stack_size: Some(1 << 20), max_threads: None };
    assert_eq!(config_steps(&c), vec![ConfigStep::SetStackSize(1 << 20)]);
    let c = Config { stack_size: None, max_threads: Some(4) };
    assert_eq!(config_steps(&c), vec![ConfigStep::SetMaxThreads(4)]);
    let c = Config { stack_size: Some(65536), max_threads: Some(8) };
    assert_eq!(config_steps(&c), vec![ConfigStep::SetStackSize(65536), ConfigStep::SetMaxThreads(8)]);
}
