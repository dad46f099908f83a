//! Routing tests: every argument-bundle shape reaches its one catalog entry
//! with exactly the marshaled values, and every return kind hands the
//! scripted reply back unchanged.

use cocoa::appkit::{NSEventSubtype, NSEventType, NSPoint, NSRect, NSSize};
use cocoa::base::{
    IMP, MsgCall, MsgReply, ObjCMethodCall, ObjCRuntime, SEL, class, id, nil, selector,
};
use cocoa::recording::RecordingRuntime;

#[test]
pub fn test_nsapp() {
    let mut rt = RecordingRuntime::new();
    let _nsApp = "NSApplication".send(&mut rt, "sharedApplication", ());
    let cls = class(&rt, "NSApplication");
    let sel = selector(&rt, "sharedApplication");
    assert_eq!(rt.log, vec![MsgCall::RetIdNoArgs { receiver: cls, selector: sel }]);
}

#[test]
pub fn test_custom_obj() {
    let mut rt = RecordingRuntime::new();
    let ns_object = class(&rt, "NSObject");
    let my_object = rt.alloc_class_pair(ns_object, "MyObject", 0);
    let doSomething = selector(&rt, "doSomething");
    let _ = rt.add_method(my_object, doSomething, IMP(0x1000), "@@:");
    rt.register_class_pair(my_object);

    let mut obj: id = my_object.send(&mut rt, "alloc", ());
    obj = obj.send(&mut rt, "init", ());
    obj.send_void(&mut rt, "doSomething", ());

    assert_eq!(rt.log.len(), 3);
    assert_eq!(
        rt.log[2],
        MsgCall::RetVoidNoArgs { receiver: obj, selector: doSomething }
    );
}

fn pt(x: f64, y: f64) -> NSPoint {
    NSPoint::new(x.to_bits(), y.to_bits())
}

fn rect(x: f64, y: f64, w: f64, h: f64) -> NSRect {
    NSRect::new(pt(x, y), NSSize::new(w.to_bits(), h.to_bits()))
}

#[test]
fn routes_every_id_returning_shape() {
    let mut rt = RecordingRuntime::new();
    let h = id(0x10);
    let sel = selector(&rt, "perform:");
    let r = rect(1.0, 2.0, 3.0, 4.0);

    let _ = h.send(&mut rt, sel, ());
    let _ = h.send(&mut rt, sel, id(9));
    let _ = h.send(&mut rt, sel, r);
    let _ = h.send(&mut rt, sel, (id(1), SEL(2), id(3)));
    let _ = h.send(&mut rt, sel, (r, 7u64, 2u64, true));
    let _ = h.send(&mut rt, sel, (id(1), id(2), id(3), id(4), id(5)));
    let _ = h.send(&mut rt, sel, (r, id(8)));
    let _ = h.send(&mut rt, sel, vec![5u64, 12u64, 24u64]);
    let _ = h.send(&mut rt, sel, (id(6), id(7)));
    let _ = h.send(&mut rt, sel, (4u64, id(1), id(2), false));

    assert_eq!(
        rt.log,
        vec![
            MsgCall::RetIdNoArgs { receiver: h, selector: sel },
            MsgCall::RetIdId { receiver: h, selector: sel, a: id(9) },
            MsgCall::RetIdRect { receiver: h, selector: sel, a: r },
            MsgCall::RetIdIdSelId { receiver: h, selector: sel, a: id(1), b: SEL(2), c: id(3) },
            MsgCall::RetIdRectUlongUlongBool {
                receiver: h,
                selector: sel,
                a: r,
                b: 7,
                c: 2,
                d: true,
            },
            MsgCall::RetIdFiveIds {
                receiver: h,
                selector: sel,
                a: id(1),
                b: id(2),
                c: id(3),
                d: id(4),
                e: id(5),
            },
            MsgCall::RetIdRectId { receiver: h, selector: sel, a: r, b: id(8) },
            MsgCall::RetIdWords { receiver: h, selector: sel, a: vec![5, 12, 24] },
            MsgCall::RetIdIdId { receiver: h, selector: sel, a: id(6), b: id(7) },
            MsgCall::RetIdUintIdIdBool {
                receiver: h,
                selector: sel,
                a: 4,
                b: id(1),
                c: id(2),
                d: false,
            },
        ]
    );
}

#[test]
fn routes_every_other_return_kind() {
    let mut rt = RecordingRuntime::new();
    let h = id(0x20);
    let sel = selector(&rt, "value");
    let p = pt(10.0, 20.0);

    let _ = h.send_double(&mut rt, sel, ());
    let _ = h.send_long(&mut rt, sel, ());
    h.send_void(&mut rt, sel, ());
    h.send_void(&mut rt, sel, true);
    h.send_void(&mut rt, sel, id(3));
    let _ = h.send_bool(&mut rt, sel, ());
    let _ = h.send_bool(&mut rt, sel, -4i64);
    let _ = h.send_point(&mut rt, sel, p);
    let _ = h.send_point(&mut rt, sel, ());
    let _ = h.send_point(&mut rt, sel, (p, id(5)));
    let _ = h.send_event(&mut rt, sel, ());
    let _ = h.send_eventSubtype(&mut rt, sel, ());
    let _ = h.send_string(&mut rt, sel, ());
    let _ = h.send_ushort(&mut rt, sel, ());
    let _ = h.send_NSUInteger(&mut rt, sel, ());

    assert_eq!(
        rt.log,
        vec![
            MsgCall::RetDoubleNoArgs { receiver: h, selector: sel },
            MsgCall::RetLongNoArgs { receiver: h, selector: sel },
            MsgCall::RetVoidNoArgs { receiver: h, selector: sel },
            MsgCall::RetVoidBool { receiver: h, selector: sel, a: true },
            MsgCall::RetVoidId { receiver: h, selector: sel, a: id(3) },
            MsgCall::RetBoolNoArgs { receiver: h, selector: sel },
            MsgCall::RetBoolLong { receiver: h, selector: sel, a: -4 },
            MsgCall::RetPointPoint { receiver: h, selector: sel, a: p },
            MsgCall::RetPointNoArgs { receiver: h, selector: sel },
            MsgCall::RetPointPointId { receiver: h, selector: sel, a: p, b: id(5) },
            MsgCall::RetEventNoArgs { receiver: h, selector: sel },
            MsgCall::RetSubtypeNoArgs { receiver: h, selector: sel },
            MsgCall::RetStringNoArgs { receiver: h, selector: sel },
            MsgCall::RetUShortNoArgs { receiver: h, selector: sel },
            MsgCall::RetUIntNoArgs { receiver: h, selector: sel },
        ]
    );
}

#[test]
fn replies_come_back_unchanged_per_kind() {
    let mut rt = RecordingRuntime::new();
    let h = id(0x30);

    rt.push_reply(MsgReply::Handle(id(42)));
    rt.push_reply(MsgReply::DoubleBits(5.25f64.to_bits()));
    rt.push_reply(MsgReply::Long(-77));
    rt.push_reply(MsgReply::Flag(true));
    rt.push_reply(MsgReply::Point(pt(1.5, -2.5)));
    rt.push_reply(MsgReply::Event(NSEventType::NSScrollWheel));
    rt.push_reply(MsgReply::Subtype(NSEventSubtype::NSScreenChangedEventType));
    rt.push_reply(MsgReply::CString(0xABCD));
    rt.push_reply(MsgReply::UShort(13));
    rt.push_reply(MsgReply::UInt(0xFFFF_FFFF_FFFF));

    assert_eq!(h.send(&mut rt, "a", ()), id(42));
    let bits = h.send_double(&mut rt, "b", ());
    assert_eq!(f64::from_bits(bits), 5.25);
    assert_eq!(h.send_long(&mut rt, "c", ()), -77);
    assert_eq!(h.send_bool(&mut rt, "d", ()), true);
    assert_eq!(h.send_point(&mut rt, "e", ()), pt(1.5, -2.5));
    assert_eq!(h.send_event(&mut rt, "f", ()), NSEventType::NSScrollWheel);
    assert_eq!(
        h.send_eventSubtype(&mut rt, "g", ()),
        NSEventSubtype::NSScreenChangedEventType
    );
    assert_eq!(h.send_string(&mut rt, "h", ()), 0xABCD);
    assert_eq!(h.send_ushort(&mut rt, "i", ()), 13);
    assert_eq!(h.send_NSUInteger(&mut rt, "j", ()), 0xFFFF_FFFF_FFFF);
    assert!(rt.replies.is_empty());
}

#[test]
fn exhausted_or_mismatched_replies_yield_defaults() {
    let mut rt = RecordingRuntime::new();
    let h = id(0x40);

    // Nothing scripted: every kind falls back to its fixed default.
    assert_eq!(h.send(&mut rt, "a", ()), nil());
    assert_eq!(h.send_bool(&mut rt, "b", ()), false);
    assert_eq!(h.send_long(&mut rt, "c", ()), 0);
    assert_eq!(h.send_point(&mut rt, "d", ()), NSPoint::new(0, 0));

    // A reply of the wrong kind is consumed but yields the default too.
    rt.push_reply(MsgReply::Flag(true));
    assert_eq!(h.send(&mut rt, "e", ()), nil());
    assert!(rt.replies.is_empty());
}
