//! Exercises the registry and the registrar actor with the real tokio
//! channels and `drmem_api` payloads linked in.

use drmem_core::actor::{DrMemError, Request, State};
use drmem_core::registry::DeviceMap;

use drmem_api::device::Value;
use tokio::sync::oneshot;

#[test]
fn register_readonly_succeeds_once() {
    let mut map = DeviceMap::new();

    assert!(map.insert_ro_device(String::from("furnace.temp")).is_some());
    assert!(map.insert_ro_device(String::from("furnace.temp")).is_none());
}

#[test]
fn readonly_device_never_gains_setting_endpoint() {
    let mut map = DeviceMap::new();

    assert!(map.insert_ro_device(String::from("pump.state")).is_some());
    // A read-write attempt on the same name fails outright, whatever the
    // order or kind of the retries.
    assert!(map.insert_rw_device(String::from("pump.state")).is_none());
    assert!(map.insert_rw_device(String::from("pump.state")).is_none());
    assert!(map.insert_ro_device(String::from("pump.state")).is_none());
}

#[test]
fn readwrite_device_yields_both_endpoints() {
    let mut map = DeviceMap::new();

    let (tx_value, mut rx_setting) = map
        .insert_rw_device(String::from("valve.position"))
        .expect("fresh name must register");

    // The setting queue exists and is empty: its send half is held by the
    // registry, so the receive half reports no pending request rather than
    // a closed channel.
    assert!(matches!(
        rx_setting.try_recv(),
        Err(tokio::sync::mpsc::error::TryRecvError::Empty)
    ));

    // The value endpoint works: a later subscriber sees a value sent
    // afterwards.
    let mut sub = tx_value.subscribe();
    tx_value.send(Value::Int(3)).expect("one subscriber listens");
    assert_eq!(sub.try_recv().expect("value pending"), Value::Int(3));
}

#[test]
fn distinct_names_both_succeed() {
    let mut map = DeviceMap::new();

    assert!(map.insert_ro_device(String::from("room.temp")).is_some());
    assert!(map.insert_rw_device(String::from("room.setpoint")).is_some());
}

#[test]
fn empty_name_registers_at_most_once() {
    let mut map = DeviceMap::new();

    assert!(map.insert_rw_device(String::new()).is_some());
    assert!(map.insert_ro_device(String::new()).is_none());
}

#[test]
fn failed_registration_leaves_prior_entry_unchanged() {
    let mut map = DeviceMap::new();

    let tx_value = map
        .insert_ro_device(String::from("outside.humidity"))
        .expect("fresh name must register");
    let mut sub = tx_value.subscribe();

    // The duplicate attempt fails...
    assert!(map.insert_rw_device(String::from("outside.humidity")).is_none());

    // ...and the endpoints handed out before still reach their channel.
    tx_value.send(Value::Flt(55.5)).expect("subscriber listens");
    assert_eq!(sub.try_recv().expect("value pending"), Value::Flt(55.5));
}

#[test]
fn make_reply_names_the_device_on_failure() {
    let reply = State::make_reply::<i32>("furnace.temp", None);
    match reply {
        Err(DrMemError::DeviceDefined(name)) => assert_eq!(name, "furnace.temp"),
        other => panic!("expected the device-defined failure, got {:?}", other),
    }

    assert_eq!(State::make_reply("any.device", Some(7)), Ok(7));
}

#[test]
fn register_reply_matches_request_kind() {
    let mut state = State::create();

    // A read-only registration is answered with the value endpoint alone.
    let _value_tx = state
        .register_readonly(String::from("tank.level"))
        .expect("fresh name must register");

    // A read-write registration is answered with both endpoints at once.
    let (_value_tx, _setting_rx) = state
        .register_readwrite(String::from("tank.valve"))
        .expect("fresh name must register");

    // A duplicate, of either kind, is answered with the error naming the
    // device.
    match state.register_readwrite(String::from("tank.level")) {
        Err(DrMemError::DeviceDefined(name)) => assert_eq!(name, "tank.level"),
        Ok(_) => panic!("duplicate name must not register"),
    }
    match state.register_readonly(String::from("tank.valve")) {
        Err(DrMemError::DeviceDefined(name)) => assert_eq!(name, "tank.valve"),
        Ok(_) => panic!("duplicate name must not register"),
    }
}

#[test]
fn run_step_terminates_on_closed_channel() {
    let mut state = State::create();

    assert_eq!(state.run_step(None), Some(Ok(())));
}

#[test]
fn scenario_furnace() {
    let mut state = State::create();

    // Register "furnace.temp" read-only: the reply carries a value endpoint.
    let (rpy_tx, mut rpy_rx) = oneshot::channel();
    let step = state.run_step(Some(Request::AddReadonlyDevice {
        dev_name: String::from("furnace.temp"),
        rpy_chan: rpy_tx,
    }));
    assert_eq!(step, None);
    let temp_tx = rpy_rx
        .try_recv()
        .expect("a reply is owed")
        .expect("fresh name must register");

    // Register "furnace.temp" again, read-write this time: it fails with
    // the error naming the device.
    let (rpy_tx, mut rpy_rx) = oneshot::channel();
    state.handle_driver_request(Request::AddReadWriteDevice {
        dev_name: String::from("furnace.temp"),
        rpy_chan: rpy_tx,
    });
    match rpy_rx.try_recv().expect("a reply is owed") {
        Err(DrMemError::DeviceDefined(name)) => assert_eq!(name, "furnace.temp"),
        other => panic!("expected the device-defined failure, got {:?}", other),
    }

    // Register "furnace.setpoint" read-write: both endpoints come at once.
    let (rpy_tx, mut rpy_rx) = oneshot::channel();
    state.handle_driver_request(Request::AddReadWriteDevice {
        dev_name: String::from("furnace.setpoint"),
        rpy_chan: rpy_tx,
    });
    let (_setpoint_tx, _setpoint_settings) = rpy_rx
        .try_recv()
        .expect("a reply is owed")
        .expect("fresh name must register");

    // A value sent on the value endpoint is observed by a subscriber
    // attached afterward.
    let mut sub = temp_tx.subscribe();
    temp_tx.send(Value::Int(72)).expect("subscriber listens");
    assert_eq!(sub.try_recv().expect("value pending"), Value::Int(72));
}

#[test]
fn actor_terminates_once_every_sender_is_dropped() {
    let rt = tokio::runtime::Runtime::new().expect("runtime");

    rt.block_on(async {
        let (tx, mut rx) = tokio::sync::mpsc::channel::<Request>(10);
        let mut state = State::create();

        let actor = tokio::spawn(async move {
            loop {
                let event = rx.recv().await;
                if let Some(result) = state.run_step(event) {
                    return result;
                }
            }
        });

        // A request submitted before shutdown is answered, not lost.
        let (rpy_tx, rpy_rx) = oneshot::channel();
        tx.send(Request::AddReadonlyDevice {
            dev_name: String::from("boiler.pressure"),
            rpy_chan: rpy_tx,
        })
        .await
        .expect("actor is running");
        assert!(rpy_rx.await.expect("a reply is owed").is_ok());

        // Dropping the last sender terminates the actor with success.
        drop(tx);
        assert_eq!(actor.await.expect("actor must not panic"), Ok(()));
    });
}
