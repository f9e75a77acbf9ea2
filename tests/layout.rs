use ctru_rt::env::SystemArgList;
use ctru_rt::graphics::{framebuffer_size, FramebufferColorFormat};
use ctru_rt::gsp::{framebuffer_update, update_framebuffer_header, FramebufferIndex, Screen};
use ctru_rt::handle::{BorrowedHandle, OwnedHandle};
use ctru_rt::ipc::CommandBuffer;
use ctru_rt::reply::{is_reply_well_formed, parse_reply, HandleGroup, IpcReply};
use ctru_rt::srv::Srv;
use ctru_rt::soc::Soc;
use ctru_rt::svc::{decode_wait_many, output_debug_string, FromRegister, IntoRegister, Timeout};
use ctru_rt::sync::Event;
use ctru_rt::tls::{StaticBufferDescriptors, ThreadLocalStorage};

fn buffer(words: &[u32]) -> CommandBuffer {
    let mut v = vec![0u32; 0x80];
    v[..words.len()].copy_from_slice(words);
    CommandBuffer::from_words(v).unwrap()
}

#[test]
fn parse_reply_reads_results_and_handle_group() {
    let buf = buffer(&[(0x10 << 16) | (3 << 6) | 3, 0, 11, 12, (1 << 26) | 0x10, 0x21, 0x22]);
    assert!(is_reply_well_formed(&buf));
    let parsed = parse_reply(buf).ok().unwrap();
    assert_eq!(parsed.results, vec![11, 12]);
    match parsed.handles {
        HandleGroup::Moved(hs) => {
            let raws: Vec<u32> = hs.into_iter().map(|h| h.leak()).collect();
            assert_eq!(raws, vec![0x21, 0x22]);
        }
        HandleGroup::Copied(_) => panic!("expected moved handles"),
    }
}

#[test]
fn parse_reply_without_translate_results() {
    let buf = buffer(&[(1 << 6) | 1, 0, 0x99]);
    let parsed = parse_reply(buf).ok().unwrap();
    assert!(parsed.results.is_empty());
    assert!(matches!(parsed.handles, HandleGroup::Moved(ref v) if v.is_empty()));
    let failed = buffer(&[(2 << 6), 0xE0A0_1BF5, 5]);
    assert_eq!(parse_reply(failed).err().unwrap().raw(), 0xE0A0_1BF5);
}

#[test]
fn malformed_replies_are_detected() {
    assert!(!is_reply_well_formed(&buffer(&[0x0001_0000])));
    assert!(!is_reply_well_formed(&buffer(&[(1 << 6) | 2, 0, (3 << 26) | 0x10, 1])));
}

#[test]
fn thread_local_layout() {
    let tls = ThreadLocalStorage(0x1FF8_2000);
    assert_eq!(tls.command_buffer(), 0x1FF8_2080);
    assert_eq!(tls.static_buffer_descriptors(), 0x1FF8_2180);
    let mut d = StaticBufferDescriptors::new();
    d.set(17, 0x0800_0000, 0x1c);
    let words = d.words();
    assert_eq!(words.len(), 32);
    assert_eq!(words[2], (0x1c << 14) | (1 << 10) | 2);
    assert_eq!(words[3], 0x0800_0000);
}

#[test]
fn argument_list() {
    let mut data = vec![2, 0, 0, 0];
    data.extend_from_slice(b"sdmc:/a.3dsx\0-v\0");
    let mut args = SystemArgList::new(data).unwrap();
    assert_eq!(args.len(), 2);
    assert_eq!(args.next().unwrap(), b"sdmc:/a.3dsx".to_vec());
    assert_eq!(args.next().unwrap(), b"-v".to_vec());
    assert!(args.next().is_none());
    assert!(SystemArgList::new(vec![1, 0]).is_none());
}

#[test]
fn framebuffer_presentation() {
    assert_eq!(
        framebuffer_size(Screen::Top.dimensions(), FramebufferColorFormat::BGR8),
        240 * 400 * 3
    );
    let u = framebuffer_update(0x0000_0100, FramebufferIndex::Second, 0x1000, 0x2000, 720, 1).unwrap();
    assert_eq!(u.slot, FramebufferIndex::Second);
    assert_eq!(u.info, vec![1, 0x1000, 0x2000, 720, 1, 1, 0]);
    assert!(framebuffer_update(0x0000_0002, FramebufferIndex::First, 0, 0, 0, 0).is_none());
    assert_eq!(update_framebuffer_header(0xAABB_0000, FramebufferIndex::Second), 0xAABB_0101);
}

#[test]
fn register_conversions() {
    assert_eq!(true.into_register(), 1);
    assert_eq!((-2i32).into_register(), 0xFFFF_FFFE);
    assert_eq!(BorrowedHandle::new(7).into_register(), 7);
    assert_eq!(OwnedHandle::new(8).into_register(), 8);
    assert_eq!(<i32 as FromRegister>::from_register(0xFFFF_FFFF), -1);
    let c = output_debug_string(0x100, "hello");
    assert_eq!(c.number, 0x3d);
    assert_eq!(c.inputs, vec![Some(0x100), Some(5)]);
}

#[test]
fn socket_session_reclaim() {
    let soc = Soc::new(OwnedHandle::new(0x30), 0x4000, OwnedHandle::new(0x31));
    let init = soc.initialize().buffer.into_inner();
    assert_eq!(&init[..6], &[(1 << 16) | (1 << 6) | 4, 0x4000, 0x20, 0, 0, 0x31]);
    let (req, handle, size) = soc.reclaim();
    assert_eq!(req.buffer.into_inner()[0], 0x19 << 16);
    assert_eq!(handle.leak(), 0x31);
    assert_eq!(size, 0x4000);
}

#[test]
fn wait_on_many_events() {
    let c = Event::wait_any(0x2000, 3, Timeout::from_nanoseconds(5));
    assert_eq!(c.number, 0x25);
    assert_eq!(c.inputs, vec![Some(5), Some(0x2000), Some(3), Some(0), Some(0)]);
    assert_eq!(Event::wait_all(0x2000, 3, Timeout::none()).inputs[3], Some(1));
    assert_eq!(decode_wait_many(&[0, 0x2008], 0x2000).ok(), Some(2));
    assert_eq!(decode_wait_many(&[0, 0], 0x2000).ok(), Some(-1));
    assert_eq!(decode_wait_many(&[0x09401BFE, 0], 0x2000).unwrap_err().raw(), 0x09401BFE);
}

#[test]
fn reply_result_read_whatever_it_is() {
    let (code, mut reply) = IpcReply::with_result(buffer(&[(2 << 6), 0x2A07, 0x33]));
    assert_eq!(code.0, 0x2A07);
    assert_eq!(reply.read_word(), 0x33);
}

#[test]
fn duplicated_handle_group_is_borrowed() {
    let buf = buffer(&[(1 << 6) | 3, 0, 1 << 26, 0x41, 0x42]);
    let parsed = parse_reply(buf).ok().unwrap();
    match parsed.handles {
        HandleGroup::Copied(hs) => {
            let raws: Vec<u32> = hs.iter().map(|h| h.as_raw()).collect();
            assert_eq!(raws, vec![0x41, 0x42]);
        }
        HandleGroup::Moved(_) => panic!("expected borrowed handles"),
    }
}

#[test]
fn subscriber_list_fills_prefix() {
    let mut reply = IpcReply::check(buffer(&[(0xd << 16) | (4 << 6), 0, 2, 0x30, 0x31])).ok().unwrap();
    assert_eq!(reply.peek(), Some(2));
    let mut subscribers = vec![7u32; 4];
    assert_eq!(Srv::read_subscribers(&mut reply, &mut subscribers), 2);
    assert_eq!(subscribers, vec![0x30, 0x31, 7, 7]);
    assert_eq!(reply.remaining(), 0);
    assert_eq!(reply.peek(), None);
    let mut reply = IpcReply::check(buffer(&[(0xb << 16) | (2 << 6), 0, 0x100])).ok().unwrap();
    assert_eq!(Srv::read_notification(&mut reply), 0x100);
}
