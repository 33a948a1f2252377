use datafusion_execution::memory_pool::{MemoryLimit, MemoryPool};
use runtime_env::{DiskManagerConfig, MemoryPoolHandle, RuntimeConfig};
use std::path::PathBuf;
use std::sync::Arc;

fn limit_of(handle: &MemoryPoolHandle) -> MemoryLimit {
    match handle {
        MemoryPoolHandle::Unbounded(pool) => pool.memory_limit(),
        MemoryPoolHandle::Greedy(pool) => pool.memory_limit(),
    }
}

fn specified(config: &RuntimeConfig) -> Vec<PathBuf> {
    match &config.disk_manager {
        DiskManagerConfig::NewSpecified(paths) => paths.clone(),
        DiskManagerConfig::NewOs => panic!("no directory is listed"),
    }
}

#[test]
fn new_config_uses_os_temp_and_no_pool() {
    let config = RuntimeConfig::new();
    assert!(matches!(config.disk_manager, DiskManagerConfig::NewOs));
    assert!(config.memory_pool.is_none());
}

#[test]
fn default_config_is_the_new_config() {
    let config = RuntimeConfig::default();
    assert!(matches!(config.disk_manager, DiskManagerConfig::NewOs));
    assert!(config.memory_pool.is_none());
}

#[test]
fn disk_manager_config_constructors() {
    assert!(matches!(DiskManagerConfig::new(), DiskManagerConfig::NewOs));
    let listed = DiskManagerConfig::new_specified(vec![PathBuf::from("/a"), PathBuf::from("/b")]);
    match listed {
        DiskManagerConfig::NewSpecified(paths) => {
            assert_eq!(paths, vec![PathBuf::from("/a"), PathBuf::from("/b")]);
        }
        DiskManagerConfig::NewOs => panic!("the directories were dropped"),
    }
}

#[test]
fn with_disk_manager_replaces_mode_and_keeps_pool() {
    let config = RuntimeConfig::new()
        .with_memory_pool(MemoryPoolHandle::greedy(64))
        .with_disk_manager(DiskManagerConfig::new_specified(vec![PathBuf::from("/spill")]));
    assert_eq!(specified(&config), vec![PathBuf::from("/spill")]);
    match &config.memory_pool {
        Some(handle) => assert!(matches!(limit_of(handle), MemoryLimit::Finite(64))),
        None => panic!("the pool was dropped"),
    }
}

#[test]
fn with_disk_manager_twice_keeps_the_second() {
    let config = RuntimeConfig::new()
        .with_disk_manager(DiskManagerConfig::new_specified(vec![PathBuf::from("/first")]))
        .with_disk_manager(DiskManagerConfig::new_specified(vec![PathBuf::from("/second")]));
    assert_eq!(specified(&config), vec![PathBuf::from("/second")]);

    let back_to_os = config.with_disk_manager(DiskManagerConfig::NewOs);
    assert!(matches!(back_to_os.disk_manager, DiskManagerConfig::NewOs));
}

#[test]
fn with_memory_pool_sets_the_very_pool_given() {
    let pool = Arc::new(datafusion_execution::memory_pool::GreedyMemoryPool::new(10));
    let config = RuntimeConfig::new().with_memory_pool(MemoryPoolHandle::Greedy(Arc::clone(&pool)));
    match &config.memory_pool {
        Some(MemoryPoolHandle::Greedy(chosen)) => assert!(Arc::ptr_eq(chosen, &pool)),
        _ => panic!("another pool was chosen"),
    }
    assert!(matches!(config.disk_manager, DiskManagerConfig::NewOs));
}

#[test]
fn with_memory_pool_twice_keeps_the_second() {
    let config = RuntimeConfig::new()
        .with_memory_pool(MemoryPoolHandle::greedy(10))
        .with_memory_pool(MemoryPoolHandle::unbounded());
    assert!(matches!(config.memory_pool, Some(MemoryPoolHandle::Unbounded(_))));
}

#[test]
fn with_memory_limit_installs_a_greedy_pool_of_that_size() {
    let config = RuntimeConfig::new().with_memory_limit(500);
    match &config.memory_pool {
        Some(handle) => {
            assert!(matches!(handle, MemoryPoolHandle::Greedy(_)));
            assert!(matches!(limit_of(handle), MemoryLimit::Finite(500)));
        }
        None => panic!("no pool was chosen"),
    }
    assert!(matches!(config.disk_manager, DiskManagerConfig::NewOs));
}

#[test]
fn with_memory_limit_twice_keeps_the_second() {
    let config = RuntimeConfig::new().with_memory_limit(100).with_memory_limit(7);
    match &config.memory_pool {
        Some(handle) => assert!(matches!(limit_of(handle), MemoryLimit::Finite(7))),
        None => panic!("no pool was chosen"),
    }
}

#[test]
fn with_memory_limit_overwrites_a_pool_given_before() {
    let config = RuntimeConfig::new()
        .with_memory_pool(MemoryPoolHandle::unbounded())
        .with_memory_limit(42);
    match &config.memory_pool {
        Some(handle) => assert!(matches!(limit_of(handle), MemoryLimit::Finite(42))),
        None => panic!("no pool was chosen"),
    }
}

#[test]
fn with_memory_limit_accepts_the_extremes() {
    let none = RuntimeConfig::new().with_memory_limit(0);
    match &none.memory_pool {
        Some(handle) => assert!(matches!(limit_of(handle), MemoryLimit::Finite(0))),
        None => panic!("no pool was chosen"),
    }
    let all = RuntimeConfig::new().with_memory_limit(usize::MAX);
    match &all.memory_pool {
        Some(handle) => assert!(matches!(limit_of(handle), MemoryLimit::Finite(usize::MAX))),
        None => panic!("no pool was chosen"),
    }
}

#[test]
fn with_memory_limit_keeps_the_disk_manager() {
    let config = RuntimeConfig::new().with_temp_file_path("/spill").with_memory_limit(1);
    assert_eq!(specified(&config), vec![PathBuf::from("/spill")]);
}

#[test]
fn with_temp_file_path_lists_exactly_that_directory() {
    let config = RuntimeConfig::new().with_temp_file_path("/var/spill");
    assert_eq!(specified(&config), vec![PathBuf::from("/var/spill")]);
    assert!(config.memory_pool.is_none());

    let from_path_buf = RuntimeConfig::new().with_temp_file_path(PathBuf::from("/other"));
    assert_eq!(specified(&from_path_buf), vec![PathBuf::from("/other")]);
}

#[test]
fn with_temp_file_path_twice_keeps_the_second() {
    let config = RuntimeConfig::new().with_temp_file_path("/first").with_temp_file_path("/second");
    assert_eq!(specified(&config), vec![PathBuf::from("/second")]);
}

#[test]
fn a_mutator_leaves_an_earlier_copy_alone() {
    let base = RuntimeConfig::new().with_temp_file_path("/base");
    let changed = base.clone().with_temp_file_path("/changed").with_memory_limit(9);
    assert_eq!(specified(&base), vec![PathBuf::from("/base")]);
    assert!(base.memory_pool.is_none());
    assert_eq!(specified(&changed), vec![PathBuf::from("/changed")]);
}

#[test]
fn cloned_config_lists_the_same_directories_and_shares_the_pool() {
    let config = RuntimeConfig::new()
        .with_disk_manager(DiskManagerConfig::new_specified(vec![PathBuf::from("/a"), PathBuf::from("/b")]))
        .with_memory_limit(33);
    let copy = config.clone();
    assert_eq!(specified(&copy), vec![PathBuf::from("/a"), PathBuf::from("/b")]);
    match (&config.memory_pool, &copy.memory_pool) {
        (Some(MemoryPoolHandle::Greedy(one)), Some(MemoryPoolHandle::Greedy(other))) => {
            assert!(Arc::ptr_eq(one, other));
        }
        _ => panic!("the pool choice changed"),
    }
    let os = RuntimeConfig::new().clone();
    assert!(matches!(os.disk_manager, DiskManagerConfig::NewOs));
    assert!(os.memory_pool.is_none());
}

#[test]
fn pool_handles_report_their_kind() {
    let unbounded = MemoryPoolHandle::unbounded();
    assert!(matches!(unbounded, MemoryPoolHandle::Unbounded(_)));
    assert!(matches!(limit_of(&unbounded), MemoryLimit::Infinite));
    let greedy = MemoryPoolHandle::greedy(1024);
    assert!(matches!(greedy, MemoryPoolHandle::Greedy(_)));
    assert!(matches!(limit_of(&greedy), MemoryLimit::Finite(1024)));
}

#[test]
fn fresh_pools_are_distinct() {
    let one = MemoryPoolHandle::greedy(8);
    let other = MemoryPoolHandle::greedy(8);
    match (&one, &other) {
        (MemoryPoolHandle::Greedy(a), MemoryPoolHandle::Greedy(b)) => assert!(!Arc::ptr_eq(a, b)),
        _ => panic!("not greedy"),
    }
}

#[test]
fn cloned_pool_handle_is_the_same_pool() {
    let greedy = MemoryPoolHandle::greedy(8);
    match (&greedy, &greedy.clone()) {
        (MemoryPoolHandle::Greedy(a), MemoryPoolHandle::Greedy(b)) => assert!(Arc::ptr_eq(a, b)),
        _ => panic!("the kind changed"),
    }
    let unbounded = MemoryPoolHandle::unbounded();
    match (&unbounded, &unbounded.clone()) {
        (MemoryPoolHandle::Unbounded(a), MemoryPoolHandle::Unbounded(b)) => assert!(Arc::ptr_eq(a, b)),
        _ => panic!("the kind changed"),
    }
}
