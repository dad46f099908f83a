//! End-to-end scenarios against the recording catalog, plus the observable
//! laws: name/reference round trip, nil handling, and interning idempotence.

use cocoa::appkit::{NSPoint, NSSize};
use cocoa::base::{
    IMP, MsgCall, MsgReply, ObjCMethodCall, ObjCRuntime, class, id, nil, selector,
};
use cocoa::recording::{RecordingRuntime, RegEntry};

fn pt(x: f64, y: f64) -> NSPoint {
    NSPoint::new(x.to_bits(), y.to_bits())
}

#[test]
fn scenario_shared_application_returns_handle() {
    let mut rt = RecordingRuntime::new();
    rt.push_reply(MsgReply::Handle(id(42)));

    let app = "NSApplication".send(&mut rt, "sharedApplication", ());

    assert_eq!(app, id(42));
    assert!(!app.is_nil());
    let cls = class(&rt, "NSApplication");
    let sel = selector(&rt, "sharedApplication");
    assert_eq!(rt.log, vec![MsgCall::RetIdNoArgs { receiver: cls, selector: sel }]);
}

#[test]
fn scenario_set_activation_policy_bool() {
    let mut rt = RecordingRuntime::new();
    rt.push_reply(MsgReply::Flag(true));
    let h = id(0x77);

    let ok = h.send_bool(&mut rt, "setActivationPolicy:", 0i64);

    assert_eq!(ok, true);
    let sel = selector(&rt, "setActivationPolicy:");
    assert_eq!(rt.log, vec![MsgCall::RetBoolLong { receiver: h, selector: sel, a: 0 }]);
}

#[test]
fn scenario_cascade_point_passes_through() {
    let mut rt = RecordingRuntime::new();
    let moved = pt(11.0, 19.0);
    rt.push_reply(MsgReply::Point(moved));
    let h = id(0x99);
    let arg = pt(10.0, 20.0);

    let out = h.send_point(&mut rt, "cascadeTopLeftFromPoint:", arg);

    let sel = selector(&rt, "cascadeTopLeftFromPoint:");
    assert_eq!(rt.log, vec![MsgCall::RetPointPoint { receiver: h, selector: sel, a: arg }]);
    assert_eq!(f64::from_bits(match &rt.log[0] {
        MsgCall::RetPointPoint { a, .. } => a.x_bits,
        _ => unreachable!(),
    }), 10.0);
    assert_eq!(out, moved);
    assert_eq!(f64::from_bits(out.y_bits), 19.0);
}

#[test]
fn scenario_register_class_pair_and_send() {
    let mut rt = RecordingRuntime::new();
    let ns_object = class(&rt, "NSObject");
    let imp = IMP(0xBEEF);

    let my_object = rt.alloc_class_pair(ns_object, "MyObject", 0);
    let doSomething = selector(&rt, "doSomething");
    let added = rt.add_method(my_object, doSomething, imp, "@@:");
    rt.register_class_pair(my_object);

    assert!(added);
    assert_eq!(my_object, class(&rt, "MyObject"));
    assert_eq!(
        rt.reg,
        vec![
            RegEntry::AllocPair {
                superclass: ns_object,
                name: String::from("MyObject"),
                extra_bytes: 0,
            },
            RegEntry::AddMethod {
                cls: my_object,
                sel: doSomething,
                imp,
                types: String::from("@@:"),
            },
            RegEntry::RegisterPair { cls: my_object },
        ]
    );

    // The instance comes back from alloc/init; the registered method's
    // return handle is propagated unchanged as the send's result.
    let instance = id(0x1234);
    let method_result = id(0x4321);
    rt.push_reply(MsgReply::Handle(instance));
    rt.push_reply(MsgReply::Handle(instance));
    rt.push_reply(MsgReply::Handle(method_result));

    let mut obj: id = my_object.send(&mut rt, "alloc", ());
    obj = obj.send(&mut rt, "init", ());
    let out = obj.send(&mut rt, "doSomething", ());

    assert_eq!(obj, instance);
    assert_eq!(out, method_result);
    assert_eq!(
        rt.log[2],
        MsgCall::RetIdNoArgs { receiver: instance, selector: doSomething }
    );
}

#[test]
fn class_name_and_class_reference_send_identically() {
    let mut rt = RecordingRuntime::new();
    let by_ref = class(&rt, "NSApplication");

    let _ = "NSApplication".send(&mut rt, "sharedApplication", ());
    let _ = by_ref.send(&mut rt, "sharedApplication", ());

    assert_eq!(rt.log.len(), 2);
    assert_eq!(rt.log[0], rt.log[1]);
}

#[test]
fn nil_compares_only_to_itself() {
    assert!(nil().is_nil());
    assert_eq!(nil(), id(0));
    assert_ne!(nil(), id(1));
    assert!(!id(42).is_nil());

    // nil needs no special casing as receiver or argument.
    let mut rt = RecordingRuntime::new();
    let sel = selector(&rt, "setMainMenu:");
    nil().send_void(&mut rt, sel, nil());
    assert_eq!(
        rt.log,
        vec![MsgCall::RetVoidId { receiver: nil(), selector: sel, a: nil() }]
    );

    // A class reference from the catalog is never the nil sentinel.
    assert!(!class(&rt, "NSObject").is_nil());
}

#[test]
fn interning_is_idempotent() {
    let mut rt = RecordingRuntime::new();
    let first = selector(&rt, "doSomething");
    let again = selector(&rt, "doSomething");
    assert_eq!(first, again);

    // A send with freshly interned text and a send with the stored token
    // reach the same entry with the same values.
    let h = id(5);
    h.send_void(&mut rt, "doSomething", ());
    h.send_void(&mut rt, first, ());
    assert_eq!(rt.log[0], rt.log[1]);
}
