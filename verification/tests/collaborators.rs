//! The configuration, singleton, component and database interfaces.

use blockz::component::ComponentExt;
use blockz::configuration::Configuration;
use blockz::configuration::DirectConfiguration;
use blockz::configuration::EasyConfiguration;
use blockz::configuration::JsonConfigurationOpts;
use blockz::databases::DatabasePool;
use blockz::databases::RedisPool;
use blockz::singleton::AlreadyInitialized;
use blockz::singleton::SingletonCell;
use blockz::singleton::SingletonFn;
use blockz::singleton::SingletonFnMut;
use blockz::singleton::SingletonFnMutWithArg;
use blockz::singleton::SingletonFnWithArg;

#[test]
fn direct_configuration_returns_value() {
    let v = <DirectConfiguration<u32> as Configuration>::load(58732);
    assert_eq!(v, 58732);
}

#[test]
fn easy_configuration_loads_default_opts() {
    let v = <DirectConfiguration<u32> as EasyConfiguration>::load();
    assert_eq!(v, 0);
}

#[test]
fn json_configuration_opts_hold_a_path() {
    let opts = JsonConfigurationOpts::File(String::from("config.json"));
    match opts {
        JsonConfigurationOpts::File(p) => assert_eq!(p, "config.json"),
    }
}

struct GetValue;

impl SingletonFn<u64, u64> for GetValue {
    fn spec_call(self, inner: u64) -> u64 {
        inner
    }

    fn call_once(self, inner: &u64) -> u64 {
        *inner
    }
}

struct BumpValue;

impl SingletonFnMut<u64, u64> for BumpValue {
    fn spec_call(self, inner: u64) -> (u64, u64) {
        (inner + 1, inner + 1)
    }

    fn call_once(self, inner: &mut u64) -> u64 {
        *inner += 1;
        *inner
    }
}

struct AddArg;

impl SingletonFnWithArg<u64, u64, u64> for AddArg {
    fn spec_call(self, inner: u64, arg: u64) -> u64 {
        inner + arg
    }

    fn call_once(self, inner: &u64, arg: u64) -> u64 {
        *inner + arg
    }
}

struct StoreArg;

impl SingletonFnMutWithArg<u64, u64, ()> for StoreArg {
    fn spec_call(self, inner: u64, arg: u64) -> (u64, ()) {
        (arg, ())
    }

    fn call_once(self, inner: &mut u64, arg: u64) -> () {
        *inner = arg;
    }
}

#[test]
fn singleton_cell_initializes_once() {
    let mut cell: SingletonCell<u64> = SingletonCell::new();
    assert!(cell.init(4).is_ok());
    assert_eq!(cell.init(9), Err(AlreadyInitialized));
}

#[test]
fn singleton_cell_runs_callbacks() {
    let mut cell: SingletonCell<u64> = SingletonCell::new();
    cell.init(4).unwrap();
    assert_eq!(cell.use_value(GetValue), 4);
    assert_eq!(cell.use_value_mut(BumpValue), 5);
    assert_eq!(cell.use_value(GetValue), 5);
    assert_eq!(AddArg.call_once(&5, 3), 8);
    let mut n: u64 = 0;
    StoreArg.call_once(&mut n, 7);
    assert_eq!(n, 7);
}

struct Counter {
    n: u64,
}

impl ComponentExt for Counter {
    type Inner = Counter;

    type InitParams = u64;

    type StartParams = ();

    type StopParams = ();

    type DeinitParams = ();

    type Error = &'static str;

    fn init(params: u64) -> Result<Counter, &'static str> {
        Ok(Counter { n: params })
    }

    fn start(&mut self, _params: ()) -> Result<(), &'static str> {
        self.n += 1;
        Ok(())
    }

    fn stop(&mut self, _params: ()) -> Result<(), &'static str> {
        Ok(())
    }

    fn deinit(&mut self, _params: ()) -> Result<(), &'static str> {
        Err("nothing to deinitialize")
    }
}

#[test]
fn component_life_cycle() {
    let mut c = Counter::init(1).unwrap();
    assert!(c.start(()).is_ok());
    assert_eq!(c.n, 2);
    assert!(c.stop(()).is_ok());
    assert!(c.deinit(()).is_err());
}

struct Sessions;

impl DatabasePool for Sessions {
    fn name() -> &'static str {
        "sessions"
    }
}

impl RedisPool for Sessions {}

#[test]
fn database_pool_names_itself() {
    assert_eq!(Sessions::name(), "sessions");
}
