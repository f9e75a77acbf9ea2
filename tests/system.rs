use ctru_rt::ac::{Ac, WifiStatus};
use ctru_rt::cfg::{console_unique_hash, Cfg, Region, SystemModel};
use ctru_rt::debug::FixedSizeBufferWriter;
use ctru_rt::errf::{message_from, ErrF, ErrorInfo};
use ctru_rt::gsp::{
    relay_queue_outcome, FramebufferIndex, InterruptEvent, InterruptEventSet, InterruptHeader,
    RelayQueueOutcome, Screen,
};
use ctru_rt::handle::{BorrowedHandle, OwnedHandle};
use ctru_rt::hid::{Hid, KeyPad};
use ctru_rt::mem::{MemoryOperation, MemoryPermission, MemoryState, QueryResult};
use ctru_rt::reslimit::Limit;
use ctru_rt::result::ResultCode;
use ctru_rt::sharedmem::{
    page_align, GapSearch, SearchStep, SharedMemoryMapper, SHAREDMEM_END, SHAREDMEM_START,
};
use ctru_rt::soc::{host_id_bytes, PosixReturnValue, SocketError};
use ctru_rt::srv::{publish_flags, write_str_param, Srv};
use ctru_rt::svc::{
    arbitrate_address, close_handle, decode_handle, decode_query_memory, decode_system_info,
    decode_tick_count, decode_word, sleep_thread, wait_synchronization, ArbitrationType, Timeout,
};
use ctru_rt::sync::{
    close_call, sticky_signal_decision, timeout_until, OsMutex, StickyEvent,
    StickyEventClearedError, StickyWait, SystemTick,
};
use ctru_rt::thread::{align_to, ThreadBuilder};

fn region(base: usize, size: usize, state: MemoryState) -> QueryResult {
    QueryResult {
        base_process_virtual_address: base,
        size,
        permission: MemoryPermission::Rw,
        state,
        page_flags: 0,
    }
}

fn lookup(map: &[QueryResult], addr: usize) -> QueryResult {
    for r in map {
        if r.base_process_virtual_address <= addr && addr < r.base_process_virtual_address + r.size {
            return *r;
        }
    }
    region(addr, 0x1000, MemoryState::Reserved)
}

fn drive(map: &[QueryResult], cursor: usize, size: usize) -> (Option<usize>, usize) {
    let mut search = GapSearch::new(cursor, size);
    let mut queries = 0;
    let mut step = search.next_step();
    loop {
        match step {
            SearchStep::Query(addr) => {
                queries += 1;
                let q = lookup(map, addr);
                step = search.on_region(&q);
            }
            SearchStep::Found(a) => return (Some(a), queries),
            SearchStep::NoGap => return (None, queries),
        }
    }
}

fn window_map() -> Vec<QueryResult> {
    vec![
        region(0x1000_0000, 0x2000, MemoryState::Shared),
        region(0x1000_2000, 0x1000, MemoryState::Free),
        region(0x1000_3000, 0x1000, MemoryState::Shared),
        region(0x1000_4000, 0x3FF_C000, MemoryState::Free),
    ]
}

#[test]
fn allocator_first_fit_from_cursor() {
    let map = window_map();
    assert_eq!(drive(&map, SHAREDMEM_START, 0x1000).0, Some(0x1000_2000));
    assert_eq!(drive(&map, SHAREDMEM_START, 0x2000).0, Some(0x1000_4000));
    assert_eq!(drive(&map, 0x1000_3000, 0x1000).0, Some(0x1000_4000));
}

#[test]
fn allocator_wraps_once_and_reports_no_gap() {
    let map = vec![
        region(0x1000_0000, 0x1000, MemoryState::Free),
        region(0x1000_1000, 0x3FF_F000, MemoryState::Shared),
    ];
    assert_eq!(drive(&map, 0x1000_1000, 0x1000).0, Some(0x1000_0000));
    let full = vec![region(0x1000_0000, 0x400_0000, MemoryState::Shared)];
    let (found, queries) = drive(&full, 0x1200_0000, 0x1000);
    assert_eq!(found, None);
    assert!(queries <= 2);
}

#[test]
fn allocator_advances_to_region_end() {
    let map = vec![
        region(0x1000_0000, 0x2000, MemoryState::Shared),
        region(0x1000_2000, 0x1000, MemoryState::Free),
        region(0x1000_3000, 0x3FF_D000, MemoryState::Shared),
    ];
    let (found, queries) = drive(&map, 0x1000_1000, 0x1000);
    assert_eq!(found, Some(0x1000_2000));
    assert_eq!(queries, 2);
}

#[test]
fn allocator_cursor_moves() {
    let mut mapper = SharedMemoryMapper::new();
    assert_eq!(mapper.cursor(), SHAREDMEM_START);
    let search = mapper.find_gap(0x2b0).unwrap();
    assert_eq!(search.size, 0x1000);
    let (block, call) = mapper.map_request(
        OwnedHandle::new(0x77),
        0x1000_4000,
        0x1000,
        MemoryPermission::R,
        MemoryPermission::DontCare,
    );
    assert_eq!(call.number, 0x1f);
    assert_eq!(call.inputs, vec![Some(0x77), Some(0x1000_4000), Some(1), Some(0x1000_0000)]);
    assert_eq!(mapper.cursor(), SHAREDMEM_START);
    let block = mapper.map(block, &[0]).ok().unwrap();
    assert_eq!(mapper.cursor(), 0x1000_5000);
    assert_eq!(block.as_ptr(), 0x1000_4000);
    assert_eq!(block.size(), 0x1000);
    let call = mapper.unmap_request(&block);
    assert_eq!(call.number, 0x20);
    assert_eq!(call.inputs, vec![Some(0x77), Some(0x1000_4000)]);
    let (e, block) = mapper.unmap(block, &[0xD8E0_07F6]).err().unwrap();
    assert_eq!(e.raw(), 0xD8E0_07F6);
    assert_eq!(mapper.cursor(), 0x1000_5000);
    let handle = mapper.unmap(block, &[0]).ok().unwrap();
    assert_eq!(mapper.cursor(), 0x1000_4000);
    assert_eq!(handle.leak(), 0x77);
    assert_eq!(page_align(0), Some(0));
    assert_eq!(page_align(0x1001), Some(0x2000));
    assert_eq!(page_align(usize::MAX), None);
    assert!(SHAREDMEM_END > SHAREDMEM_START);
}

#[test]
fn failed_map_keeps_cursor_and_returns_handle() {
    let mut mapper = SharedMemoryMapper::new();
    let (block, _call) = mapper.map_request(
        OwnedHandle::new(0x78),
        0x1000_8000,
        0x2000,
        MemoryPermission::Rw,
        MemoryPermission::DontCare,
    );
    let (e, handle) = mapper.map(block, &[0xE0E0_1BF5]).err().unwrap();
    assert_eq!(e.raw(), 0xE0E0_1BF5);
    assert_eq!(handle.leak(), 0x78);
    assert_eq!(mapper.cursor(), SHAREDMEM_START);
}

#[test]
fn syscall_register_layouts() {
    let t = Timeout::from_nanoseconds(0x1_2345_6789);
    let c = sleep_thread(t);
    assert_eq!(c.number, 0x0a);
    assert_eq!(c.inputs, vec![Some(0x2345_6789), Some(0x1)]);
    let c = wait_synchronization(BorrowedHandle::new(0x10), t);
    assert_eq!(c.number, 0x24);
    assert_eq!(c.inputs, vec![Some(0x10), None, Some(0x1), Some(0x2345_6789)]);
    let c = arbitrate_address(BorrowedHandle::new(0x11), 0x2000, ArbitrationType::Signal, -1, t);
    assert_eq!(
        c.inputs,
        vec![Some(0x11), Some(0x2000), Some(0), Some(0xFFFF_FFFF), Some(0x2345_6789), Some(0x1)]
    );
    assert_eq!(close_handle(BorrowedHandle::new(5)).inputs, vec![Some(5)]);
    assert_eq!(Timeout::from_seconds(2).0, 2_000_000_000);
    assert_eq!(Timeout::forever().0, i64::MAX);
    assert_eq!(Timeout::none().0, 0);
}

#[test]
fn syscall_outputs() {
    assert_eq!(decode_word(&[0, 42]).ok(), Some(42));
    assert_eq!(decode_word(&[0xD900_1830, 42]).unwrap_err().raw(), 0xD900_1830);
    assert_eq!(decode_handle(&[0, 0x99]).ok().unwrap().leak(), 0x99);
    assert_eq!(decode_tick_count(&[0x1, 0x2]), 0x1_0000_0002);
    assert_eq!(decode_system_info(&[0, 0x2, 0x1]).ok(), Some(0x1_0000_0002));
    let q = decode_query_memory(&[0, 0x1000_0000, 0x2000, 3, 0, 0]).ok().unwrap().unwrap();
    assert_eq!(q.base_process_virtual_address, 0x1000_0000);
    assert_eq!(q.size, 0x2000);
    assert_eq!(q.permission, MemoryPermission::Rw);
    assert_eq!(q.state, MemoryState::Free);
    assert!(decode_query_memory(&[0, 0, 0, 3, 99, 0]).ok().unwrap().is_none());
    assert_eq!(MemoryOperation::allocate().linear().0, 0x1_0003);
}

#[test]
fn sticky_event_and_timeouts() {
    let e = StickyEvent::new();
    assert_eq!(e.try_wait(), Err(StickyEventClearedError));
    assert_eq!(e.wait(), StickyWait::Block);
    assert!(e.signal());
    assert!(!e.signal());
    assert_eq!(e.try_wait(), Ok(()));
    e.clear();
    assert_eq!(e.wait(), StickyWait::Block);
    assert!(sticky_signal_decision(0));
    assert!(!sticky_signal_decision(1));
    assert!(close_call(0).is_none());
    assert_eq!(close_call(0x12).unwrap().inputs, vec![Some(0x12)]);
    let mut m = OsMutex::from_handle(OwnedHandle::new(0x13));
    let c = m.destroy().unwrap();
    assert_eq!((c.number, c.inputs), (0x23, vec![Some(0x13)]));
    assert!(m.destroy().is_none());
    assert!(SystemTick::new(3) < SystemTick::new(4));
    assert!(SystemTick::new(4) <= SystemTick::new(4));
    assert!(SystemTick::new(5) > SystemTick::new(4));
    assert_eq!(timeout_until(SystemTick::new(100), SystemTick::new(40)).0, 60);
    assert_eq!(timeout_until(SystemTick::new(10), SystemTick::new(40)).0, 0);
    assert_eq!(timeout_until(SystemTick::new(u64::MAX), SystemTick::new(0)).0, i64::MAX);
}

#[test]
fn service_manager_requests() {
    assert_eq!(write_str_param("srv:"), ((0x3a76_7273, 0), 4));
    assert_eq!(write_str_param("averylongname"), ((0x7265_7661, 0x6e6f_6c79), 8));
    assert_eq!(publish_flags(true, true), 3);
    assert_eq!(publish_flags(false, true), 2);
    let srv = Srv::init(OwnedHandle::new(0x5));
    let words = srv.get_service_handle("ac:u").buffer.into_inner();
    assert_eq!(&words[..5], &[(5 << 16) | (4 << 6), 0x753a_6361, 0, 4, 0]);
    let req = srv.register_client();
    assert_eq!(req.receiver.as_raw(), 0x5);
    assert_eq!(&req.buffer.into_inner()[..3], &[(1 << 16) | 2, 0x20, 0]);
}

#[test]
fn wifi_status_words() {
    assert_eq!(WifiStatus::from_reply_word(0).ok(), Some(WifiStatus::NoConnection));
    assert_eq!(WifiStatus::from_reply_word(2).ok(), Some(WifiStatus::New3dsConnection));
    assert!(WifiStatus::from_reply_word(2).ok().unwrap().is_connected());
    let e = WifiStatus::from_reply_word(3).unwrap_err();
    assert_eq!(e.raw(), (31 << 27) | (63 << 21) | (39 << 10) | 1023);
    let ac = Ac::init(OwnedHandle::new(9));
    assert_eq!(ac.wifi_status().buffer.into_inner()[0], 0xd << 16);
}

#[test]
fn config_requests_and_values() {
    assert_eq!(console_unique_hash(0x1, 0x2), 0x2_0000_0001);
    assert_eq!(Region::from_value(1), Some(Region::America));
    assert_eq!(SystemModel::from_value(9), None);
    let cfg = Cfg::init(OwnedHandle::new(3));
    assert_eq!(&cfg.generate_console_unique_hash(7).buffer.into_inner()[..2], &[(3 << 16) | (1 << 6), 7]);
}

#[test]
fn error_report_layout() {
    let info = ErrorInfo::from_result_code_with_message(ResultCode::from_raw(0xC8A0_4401), "oops", 0x100, 7);
    let words = info.as_words();
    assert_eq!(words.len(), 32);
    assert_eq!(words[0], 4);
    assert_eq!(words[1], 0xC8A0_4401);
    assert_eq!(words[2], 0x100);
    assert_eq!(words[3], 7);
    assert_eq!(words[8], 0x7370_6f6f);
    assert_eq!(words[9], 0);
    let long = "x".repeat(200);
    let m = message_from(&long);
    assert_eq!(m.len(), 0x60);
    assert_eq!(m[0x5E], b'x');
    assert_eq!(m[0x5F], 0);
    let errf = ErrF::init(OwnedHandle::new(2));
    let buf = errf.throw(&info).buffer.into_inner();
    assert_eq!(buf[0], (1 << 16) | (32 << 6));
    assert_eq!(buf[2], 0xC8A0_4401);
}

#[test]
fn socket_values() {
    assert_eq!(PosixReturnValue::check(0), Ok(()));
    assert_eq!(PosixReturnValue::check(5), Err(SocketError::SocketErr(PosixReturnValue(5))));
    assert_eq!(host_id_bytes(0x0102_A8C0), [0xC0, 0xA8, 0x02, 0x01]);
}

#[test]
fn gpu_queue_and_events() {
    let mut set = InterruptEventSet::empty();
    set.add(InterruptEvent::VBlank0);
    assert!(set.contains(InterruptEvent::VBlank0));
    assert!(!set.contains(InterruptEvent::PSC0));
    let h = InterruptHeader::from_word(0x0003_0234);
    assert_eq!(h.current_index, 0x34);
    assert_eq!(h.events_total, 2);
    let next = h.acknowledged();
    assert_eq!(next.current_index, 0);
    assert_eq!(next.events_total, 1);
    assert_eq!(next.to_word(), 0x0000_0100);
    assert_eq!(h.event_word_index(), 3 + 13);
    let first = InterruptHeader::from_word(0x0000_0100);
    assert_eq!(first.event_in(0x0200_0000), Some(InterruptEvent::VBlank0));
    assert_eq!(relay_queue_outcome(ResultCode::from_raw(0)), RelayQueueOutcome::Registered);
    assert_eq!(relay_queue_outcome(ResultCode::from_raw(0x2A07)), RelayQueueOutcome::NeedsHardwareInit);
    assert!(matches!(relay_queue_outcome(ResultCode::from_raw(0xD8E0_6406)), RelayQueueOutcome::Failed(_)));
    assert_eq!(Screen::Top.dimensions_register(), (400 << 16) | 240);
    assert_eq!(FramebufferIndex::First.swap(), FramebufferIndex::Second);
}

#[test]
fn keypad_bits_and_shared_memory() {
    let pad = KeyPad::new((1 << 0) | (1 << 3) | (1 << 31));
    assert!(pad.a() && pad.start() && pad.cpad_down());
    assert!(!pad.b() && !pad.cpad_up());
    let mut shared = vec![0u32; 42];
    shared[4] = 9;
    shared[14] = 0x0000_0800;
    assert!(Hid::last_keypad(&shared).y());
}

#[test]
fn buffer_writer_cuts_off() {
    let mut w = FixedSizeBufferWriter::new(6);
    w.write_str("abcd");
    w.write_str("efgh");
    assert_eq!(w.occupied(), b"abcdef".to_vec());
    assert_eq!(w.remaining(), 0);
}

#[test]
fn thread_parameters() {
    let b = ThreadBuilder::default().with_priority(0x20);
    assert_eq!(b.priority, 0x20);
    assert_eq!(b.stack_size, 0x1000);
    assert_eq!(b.with_stack_size(0x1001).aligned_stack_size(), Some(0x1008));
    assert_eq!(align_to(13, 8), 16);
    let c = b.spawn(0x100, 0x200, 0x3000);
    assert_eq!(c.inputs, vec![Some(0x20), Some(0x100), Some(0x200), Some(0x3000), Some(0xFFFF_FFFE)]);
    assert_eq!(Limit::remaining(100, 30), Some(70));
    assert_eq!(Limit::remaining(i64::MIN, 1), None);
}
