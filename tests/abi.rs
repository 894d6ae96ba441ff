use bsc::api::{drone_count, drone_id, drone_status, write_mem, ApiError};
use bsc::drone::Drone;
use bsc::internal::StatusCode;
use bsc::model::DroneStatus;
use bsc::native::NativeDrone;
use bsc::runtime::{BrainCtx, BrainHostApi};

fn bits(v: [f32; 5]) -> [u32; 5] {
    [v[0].to_bits(), v[1].to_bits(), v[2].to_bits(), v[3].to_bits(), v[4].to_bits()]
}

fn host_with(drones: Vec<Drone>) -> BrainHostApi {
    let mut host = BrainHostApi::new();
    host.brain_ctx.set(BrainCtx::new(drones));
    host
}

fn word_at(mem: &[u8], p: usize) -> u32 {
    u32::from_le_bytes([mem[p], mem[p + 1], mem[p + 2], mem[p + 3]])
}

fn float_at(mem: &[u8], p: usize) -> f32 {
    f32::from_le_bytes([mem[p], mem[p + 1], mem[p + 2], mem[p + 3]])
}

const OK: u32 = 0;
const HOST_ERROR: u32 = 1;
const ARGUMENT_ERROR: u32 = 2;
const NOT_FOUND: u32 = 3;

#[test]
fn two_drones_listed_by_index() {
    let host = host_with(vec![Drone::new(7, [0; 5]), Drone::new(12, [0; 5])]);
    let mut mem = vec![0u8; 32];
    assert_eq!(drone_count(&host), 2);
    assert_eq!(drone_id(&host, &mut mem, 0, 8), OK);
    assert_eq!(word_at(&mem, 8), 7);
    assert_eq!(drone_id(&host, &mut mem, 1, 8), OK);
    assert_eq!(word_at(&mem, 8), 12);
    let before = mem.clone();
    assert_eq!(drone_id(&host, &mut mem, 2, 8), NOT_FOUND);
    assert_eq!(mem, before);
}

#[test]
fn drone_id_is_little_endian() {
    let host = host_with(vec![Drone::new(0x0403_0201, [0; 5])]);
    let mut mem = vec![0xAAu8; 8];
    assert_eq!(drone_id(&host, &mut mem, 0, 2), OK);
    assert_eq!(mem, vec![0xAA, 0xAA, 1, 2, 3, 4, 0xAA, 0xAA]);
}

#[test]
fn status_of_drone_seven() {
    let host = host_with(vec![Drone::new(7, bits([1.0, 2.0, 3.0, 4.0, 5.0]))]);
    let mut mem = vec![0u8; 64];
    assert_eq!(drone_status(&host, &mut mem, 7, 16), OK);
    let read: Vec<f32> = (0..5).map(|k| float_at(&mem, 16 + 4 * k)).collect();
    assert_eq!(read, vec![1.0, 2.0, 3.0, 4.0, 5.0]);
    let before = mem.clone();
    assert_eq!(drone_status(&host, &mut mem, 99, 16), NOT_FOUND);
    assert_eq!(mem, before);
}

#[test]
fn status_lookup_takes_first_match() {
    let host = host_with(vec![
        Drone::new(3, bits([9.0; 5])),
        Drone::new(5, bits([1.5; 5])),
        Drone::new(5, bits([2.5; 5])),
    ]);
    let mut mem = vec![0u8; 20];
    assert_eq!(drone_status(&host, &mut mem, 5, 0), OK);
    assert_eq!(float_at(&mem, 0), 1.5);
}

#[test]
fn pointer_past_memory_is_argument_error() {
    let host = host_with(vec![Drone::new(7, bits([1.0; 5]))]);
    let mut mem = vec![0x55u8; 24];
    let before = mem.clone();
    assert_eq!(drone_id(&host, &mut mem, 0, 21), ARGUMENT_ERROR);
    assert_eq!(drone_status(&host, &mut mem, 7, 5), ARGUMENT_ERROR);
    assert_eq!(drone_id(&host, &mut mem, 0, u32::MAX), ARGUMENT_ERROR);
    assert_eq!(drone_status(&host, &mut mem, 7, u32::MAX), ARGUMENT_ERROR);
    assert_eq!(mem, before);
}

#[test]
fn payload_ending_at_memory_end_fits() {
    let host = host_with(vec![Drone::new(9, bits([0.5; 5]))]);
    let mut mem = vec![0u8; 24];
    assert_eq!(drone_id(&host, &mut mem, 0, 20), OK);
    assert_eq!(word_at(&mem, 20), 9);
    assert_eq!(drone_status(&host, &mut mem, 9, 4), OK);
    assert_eq!(float_at(&mem, 20), 0.5);
}

#[test]
fn unbound_context_is_host_error() {
    let host = BrainHostApi::new();
    let mut mem = vec![0u8; 32];
    assert_eq!(drone_count(&host), 0);
    assert_eq!(drone_id(&host, &mut mem, 0, 0), HOST_ERROR);
    assert_eq!(drone_status(&host, &mut mem, 7, 0), HOST_ERROR);
    assert_eq!(mem, vec![0u8; 32]);
}

#[test]
fn cleared_context_is_host_error() {
    let mut host = host_with(vec![Drone::new(7, [0; 5])]);
    let taken = host.brain_ctx.clear();
    assert!(taken.is_some());
    assert!(!host.brain_ctx.is_bound());
    let mut mem = vec![0u8; 8];
    assert_eq!(drone_id(&host, &mut mem, 0, 0), HOST_ERROR);
    assert!(host.brain_ctx.clear().is_none());
}

#[test]
fn two_hosts_see_only_their_own_context() {
    let a = host_with(vec![Drone::new(1, bits([1.0; 5])), Drone::new(2, bits([2.0; 5]))]);
    let b = host_with(vec![Drone::new(40, bits([4.0; 5]))]);
    let mut mem_a = vec![0u8; 32];
    let mut mem_b = vec![0u8; 32];
    assert_eq!(drone_count(&a), 2);
    assert_eq!(drone_count(&b), 1);
    assert_eq!(drone_id(&a, &mut mem_a, 0, 0), OK);
    assert_eq!(drone_id(&b, &mut mem_b, 0, 0), OK);
    assert_eq!(word_at(&mem_a, 0), 1);
    assert_eq!(word_at(&mem_b, 0), 40);
    assert_eq!(drone_status(&a, &mut mem_a, 40, 4), NOT_FOUND);
    assert_eq!(drone_status(&b, &mut mem_b, 1, 4), NOT_FOUND);
    assert_eq!(drone_id(&b, &mut mem_b, 1, 0), NOT_FOUND);
}

#[test]
fn status_round_trips_through_guest_memory() {
    let values = [f32::NAN, -0.0, f32::INFINITY, 1.0e-40, -123.456];
    let host = host_with(vec![Drone::new(3, bits(values))]);
    let mut mem = vec![0u8; 40];
    let code = drone_status(&host, &mut mem, 3, 12);
    let status = NativeDrone::status_from_reply(code, &mem[12..32]).unwrap();
    for k in 0..5 {
        assert_eq!(f32::from_bits(status.pos[k]).to_bits(), values[k].to_bits());
    }
}

#[test]
fn status_bytes_round_trip() {
    let s = DroneStatus { pos: bits([1.0, -2.0, 3.5, 0.0, 1.0e9]) };
    let bytes = s.to_bytes();
    assert_eq!(bytes.len(), 20);
    assert_eq!(&bytes[0..4], &1.0f32.to_le_bytes());
    assert_eq!(&bytes[4..8], &(-2.0f32).to_le_bytes());
    assert_eq!(DroneStatus::from_bytes(&bytes), Some(s));
    assert_eq!(DroneStatus::from_bytes(&bytes[..19]), None);
}

#[test]
fn write_mem_is_all_or_nothing() {
    let mut mem = vec![0u8; 6];
    assert!(write_mem(&mut mem, 2, &[1, 2, 3, 4]).is_ok());
    assert_eq!(mem, vec![0, 0, 1, 2, 3, 4]);
    match write_mem(&mut mem, 3, &[9, 9, 9, 9]) {
        Err(ApiError::ModuleInternal(StatusCode::ArgumentError)) => {}
        other => panic!("unexpected {:?}", other),
    }
    assert_eq!(mem, vec![0, 0, 1, 2, 3, 4]);
    assert!(write_mem(&mut mem, 6, &[]).is_ok());
}

#[test]
fn unwrap_result_maps_errors() {
    assert_eq!(ApiError::unwrap_result(Ok(())), StatusCode::Success);
    assert_eq!(
        ApiError::unwrap_result(Err(ApiError::ModuleExternal("no memory".to_string()))),
        StatusCode::HostError
    );
    assert_eq!(
        ApiError::unwrap_result(Err(ApiError::ModuleInternal(StatusCode::NotFound))),
        StatusCode::NotFound
    );
}

#[test]
fn context_lookups() {
    let ctx = BrainCtx::new(vec![Drone::new(4, [1; 5]), Drone::new(8, [2; 5])]);
    assert_eq!(ctx.drone_count(), 2);
    assert_eq!(ctx.get_drone_at(1).unwrap().id, 8);
    assert!(ctx.get_drone_at(2).is_err());
    assert_eq!(ctx.get_drone(4).unwrap().pos, [1; 5]);
    match ctx.get_drone(5) {
        Err(ApiError::ModuleInternal(StatusCode::NotFound)) => {}
        _ => panic!("expected NotFound"),
    }
}
