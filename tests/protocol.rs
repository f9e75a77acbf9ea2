use ctru_rt::handle::{
    decide_install, present_handle, AtomicHandle, BorrowedHandle, HandleCell, LazyOutcome,
    OwnedHandle,
};
use ctru_rt::ipc::{
    decode_handle_descriptor, encode_handle_descriptor, CommandBuffer, CommandBufferWriter,
    IpcHeader, StaticBuffer, ThisProcessId,
};
use ctru_rt::reply::IpcReply;
use ctru_rt::request::IpcRequest;
use ctru_rt::result::{
    CommonDescription, ErrorCode, Level, Module, ResultCode, ResultValue, Summary,
};

#[test]
fn result_code_fields_round_trip() {
    let code = ResultCode::new(Level::Permanent, Summary::NotFound, Module::Srv, 1018);
    assert_eq!(code.0, (27 << 27) | (4 << 21) | (25 << 10) | 1018);
    assert_eq!(code.level(), Ok(Level::Permanent));
    assert_eq!(code.summary(), Ok(Summary::NotFound));
    assert_eq!(code.module(), Ok(Module::Srv));
    assert!(matches!(code.description(), Ok(CommonDescription::NotFound)));
    assert!(code.is_err());
}

#[test]
fn result_code_zero_is_success() {
    let code = ResultCode::new(Level::Success, Summary::Success, Module::Common, 0);
    assert_eq!(code.0, 0);
    assert!(code.is_ok());
    assert!(code.into_result().is_ok());
    assert_eq!(ResultCode::success().0, 0);
    assert!(ErrorCode::new(Level::Success, Summary::Success, Module::Common, 0).is_none());
}

#[test]
fn result_code_failure_short_circuits() {
    let code = ResultCode::from_raw(0xD8E0_6406);
    let e = code.into_result().unwrap_err();
    assert_eq!(e.raw(), 0xD8E0_6406);
    assert_eq!(code.and(5u32).unwrap_err().raw(), 0xD8E0_6406);
    assert_eq!(ResultCode::success().and(5u32).ok(), Some(5));
    assert_eq!(ResultCode::success().and_then(|| 7u32).ok(), Some(7));
}

#[test]
fn result_code_unknown_fields() {
    let code = ResultCode::from_raw((2 << 27) | (20 << 21) | (200 << 10) | 5);
    assert_eq!(code.level(), Err(2));
    assert_eq!(code.summary(), Err(20));
    assert_eq!(code.module(), Err(200));
    assert!(matches!(code.description(), Err(5)));
}

#[test]
fn header_round_trip() {
    for (id, n, t) in [(0u16, 0usize, 0usize), (0xFFFF, 63, 63), (0x1234, 17, 5)] {
        let h = IpcHeader::new(id, n, t);
        assert_eq!(h.command_id(), id);
        assert_eq!(h.normal_param_words(), n);
        assert_eq!(h.translate_param_words(), t);
    }
}

#[test]
fn header_example_with_process_id() {
    let request = IpcRequest::command(0x5)
        .parameter(1u32)
        .parameter(2u32)
        .translate_parameter(ThisProcessId);
    let buf = request.finish().into_inner();
    assert_eq!(buf[0], 0x0005_0082);
    assert_eq!(&buf[1..5], &[1, 2, 0x20, 0]);
}

#[test]
fn static_buffer_descriptor_example() {
    let sb = StaticBuffer::new(0x0800_0000, 4, 0);
    assert_eq!(sb.descriptor(), 0x10002);
    let buf = IpcRequest::command(1).translate_parameter(sb).finish().into_inner();
    assert_eq!(buf[0], (1 << 16) | 2);
    assert_eq!(&buf[1..3], &[0x10002, 0x0800_0000]);
}

#[test]
fn handle_group_descriptors() {
    let moved = vec![OwnedHandle::new(0x11), OwnedHandle::new(0x22), OwnedHandle::new(0x33)];
    let copied = vec![BorrowedHandle::new(0x44)];
    let buf = IpcRequest::command(9)
        .parameters(&[7u32, 8u32])
        .translate_parameter(moved)
        .translate_parameter(copied)
        .finish()
        .into_inner();
    assert_eq!(buf[0], (9 << 16) | (2 << 6) | 6);
    assert_eq!(&buf[1..9], &[7, 8, (2 << 26) | 0x10, 0x11, 0x22, 0x33, 0, 0x44]);
}

#[test]
fn writer_fills_whole_buffer() {
    let mut w = CommandBufferWriter::new(CommandBuffer::new());
    for i in 0..0x80u32 {
        w.write(i);
    }
    assert_eq!(w.pos(), 0x80);
    assert_eq!(w.remaining(), 0);
    let words = w.finish().into_inner();
    assert_eq!(words.len(), 0x80);
    assert_eq!(words[0x7F], 0x7F);
}

fn reply_buffer(words: &[u32]) -> CommandBuffer {
    let mut v = vec![0u32; 0x80];
    v[..words.len()].copy_from_slice(words);
    CommandBuffer::from_words(v).unwrap()
}

#[test]
fn reply_success_reads_results_and_handles() {
    let buf = reply_buffer(&[(0x2 << 16) | (2 << 6) | 3, 0, 0xABCD, (1 << 26) | 0x10, 0x55, 0x66]);
    let mut reply = IpcReply::check(buf).ok().unwrap();
    assert_eq!(reply.read_word(), 0xABCD);
    let mut reply = reply.finish_results();
    let handles = reply.read_handles();
    assert_eq!(handles.len(), 2);
    assert_eq!(handles[0].handle().as_raw(), 0x55);
    assert_eq!(handles[1].handle().as_raw(), 0x66);
}

#[test]
fn reply_failure_is_not_read_further() {
    let buf = reply_buffer(&[(0x2 << 16) | (2 << 6), 0xC880_3FEF, 0x1234]);
    let e = IpcReply::check(buf).err().unwrap();
    assert_eq!(e.raw(), 0xC880_3FEF);
}

#[test]
fn reply_single_handle() {
    let buf = reply_buffer(&[(1 << 6) | 2, 0, 0x10, 0x77]);
    let reply = IpcReply::check(buf).ok().unwrap();
    let mut reply = reply.finish_results();
    let h = reply.read_handle();
    assert_eq!(h.leak(), 0x77);
}

#[test]
fn lazy_cell_first_install_wins() {
    let mut cell = HandleCell::new_closed();
    assert!(cell.get().is_none());
    let mut observed = Vec::new();
    let mut losers = Vec::new();
    for raw in [0x100u32, 0x200, 0x300, 0x400] {
        let (seen, lost) = cell.install(OwnedHandle::new(raw));
        observed.push(seen.as_raw());
        if let Some(l) = lost {
            losers.push(l.leak());
        }
    }
    assert_eq!(observed, vec![0x100; 4]);
    assert_eq!(losers, vec![0x200, 0x300, 0x400]);
    assert_eq!(cell.get().unwrap().as_raw(), 0x100);
}

#[test]
fn owned_handle_closes_once() {
    let mut h = OwnedHandle::new(0x42);
    assert_eq!(h.close(), Some(0x42));
    assert_eq!(h.close(), None);
    assert!(h.is_closed());
    let mut a = OwnedHandle::new(0x9);
    let b = a.take();
    assert!(a.is_closed());
    assert_eq!(b.leak(), 0x9);
}

#[test]
fn handle_descriptor_codec() {
    for count in 1u32..=64 {
        for moved in [false, true] {
            let d = encode_handle_descriptor(count, moved);
            assert_eq!(decode_handle_descriptor(d), (count, moved));
        }
    }
    assert_eq!(encode_handle_descriptor(3, true), (2 << 26) | 0x10);
}

#[test]
fn atomic_cell_first_use_installs_then_shares() {
    let cell = AtomicHandle::new_closed();
    match cell.get_or_init(|| OwnedHandle::new(0x10)) {
        LazyOutcome::Installed(h) => assert_eq!(h.as_raw(), 0x10),
        other => panic!("expected installed, got {:?}", other),
    }
    match cell.get_or_init(|| panic!("the cell is filled; nothing may be created")) {
        LazyOutcome::Present(h) => assert_eq!(h.as_raw(), 0x10),
        other => panic!("expected present, got {:?}", other),
    }
    assert_eq!(cell.borrow_raw().as_raw(), 0x10);
    assert_eq!(cell.take_raw(), 0x10);
    assert_eq!(cell.borrow_raw().as_raw(), 0);
}

#[test]
fn race_decisions() {
    assert!(present_handle(0).is_none());
    assert_eq!(present_handle(0x30).unwrap().as_raw(), 0x30);
    let (h, lost) = decide_install(0, OwnedHandle::new(0x40));
    assert_eq!(h.as_raw(), 0x40);
    assert!(lost.is_none());
    let (h, lost) = decide_install(0x30, OwnedHandle::new(0x41));
    assert_eq!(h.as_raw(), 0x30);
    assert_eq!(lost.unwrap().leak(), 0x41);
}
