//! The framework façades: each operation is one fixed dispatch call with a
//! literal selector and a literal bundle shape.

use cocoa::appkit::{
    NSApp, NSApplication, NSApplicationActivationPolicy, NSAutoreleasePool, NSBackingStoreType,
    NSMenu, NSMenuItem, NSOpenGLContext, NSOpenGLPixelFormat, NSOpenGLPixelFormatAttribute,
    NSOpenGLView, NSPoint, NSProcessInfo, NSRect, NSSize, NSString, NSView, NSWindow,
    NSWindowMask,
};
use cocoa::base::{MsgCall, MsgReply, ObjCRuntime, class, id, nil, selector};
use cocoa::recording::RecordingRuntime;

fn rect(x: f64, y: f64, w: f64, h: f64) -> NSRect {
    NSRect::new(
        NSPoint::new(x.to_bits(), y.to_bits()),
        NSSize::new(w.to_bits(), h.to_bits()),
    )
}

#[test]
fn shared_application_and_policy() {
    let mut rt = RecordingRuntime::new();
    rt.push_reply(MsgReply::Handle(id(42)));
    rt.push_reply(MsgReply::Flag(true));

    let app = NSApp(&mut rt);
    assert_eq!(app, id(42));

    let ok = NSApplication::setActivationPolicy_(
        app,
        &mut rt,
        NSApplicationActivationPolicy::NSApplicationActivationPolicyRegular,
    );
    assert!(ok);

    let cls = class(&rt, "NSApplication");
    assert_eq!(
        rt.log,
        vec![
            MsgCall::RetIdNoArgs {
                receiver: cls,
                selector: selector(&rt, "sharedApplication"),
            },
            MsgCall::RetBoolLong {
                receiver: app,
                selector: selector(&rt, "setActivationPolicy:"),
                a: 0,
            },
        ]
    );
}

#[test]
fn window_setup_flow() {
    let mut rt = RecordingRuntime::new();
    let win_uninit = id(0x100);
    let win = id(0x101);
    rt.push_reply(MsgReply::Handle(win_uninit));
    rt.push_reply(MsgReply::Handle(win));

    let r = rect(0.0, 0.0, 200.0, 200.0);
    let style = NSWindowMask::NSTitledWindowMask.value();
    let alloced = NSWindow::alloc_(nil(), &mut rt);
    assert_eq!(alloced, win_uninit);
    let inited = NSWindow::initWithContentRect_styleMask_backing_defer_(
        alloced,
        &mut rt,
        r,
        style,
        NSBackingStoreType::NSBackingStoreBuffered,
        false,
    );
    assert_eq!(inited, win);
    NSWindow::center(inited, &mut rt);
    NSWindow::setTitle_(inited, &mut rt, id(0x200));
    NSWindow::makeKeyAndOrderFront_(inited, &mut rt, nil());

    assert_eq!(
        rt.log,
        vec![
            MsgCall::RetIdNoArgs {
                receiver: class(&rt, "NSWindow"),
                selector: selector(&rt, "alloc"),
            },
            MsgCall::RetIdRectUlongUlongBool {
                receiver: win_uninit,
                selector: selector(&rt, "initWithContentRect:styleMask:backing:defer:"),
                a: r,
                b: 1,
                c: 2,
                d: false,
            },
            MsgCall::RetVoidNoArgs { receiver: win, selector: selector(&rt, "center") },
            MsgCall::RetVoidId {
                receiver: win,
                selector: selector(&rt, "setTitle:"),
                a: id(0x200),
            },
            MsgCall::RetVoidId {
                receiver: win,
                selector: selector(&rt, "makeKeyAndOrderFront:"),
                a: id(0),
            },
        ]
    );
}

#[test]
fn cascade_returns_framework_point() {
    let mut rt = RecordingRuntime::new();
    let moved = NSPoint::new(12.0f64.to_bits(), 18.0f64.to_bits());
    rt.push_reply(MsgReply::Point(moved));
    let win = id(0x300);
    let arg = NSPoint::new(10.0f64.to_bits(), 20.0f64.to_bits());

    let out = NSWindow::cascadeTopLeftFromPoint_(win, &mut rt, arg);

    assert_eq!(out, moved);
    assert_eq!(
        rt.log,
        vec![MsgCall::RetPointPoint {
            receiver: win,
            selector: selector(&rt, "cascadeTopLeftFromPoint:"),
            a: arg,
        }]
    );
}

#[test]
fn menu_construction_flow() {
    let mut rt = RecordingRuntime::new();
    let menu = id(0x400);
    let item = id(0x401);
    let item_inited = id(0x402);
    rt.push_reply(MsgReply::Handle(menu));
    rt.push_reply(MsgReply::Handle(item));
    rt.push_reply(MsgReply::Handle(item_inited));

    let m = NSMenu::new(nil(), &mut rt);
    let i = NSMenuItem::alloc_(nil(), &mut rt);
    let quit_sel = selector(&rt, "terminate:");
    let i2 = NSMenuItem::initWithTitle_action_keyEquivalent_(
        i,
        &mut rt,
        id(0x500),
        quit_sel,
        id(0x501),
    );
    NSMenu::addItem_(m, &mut rt, i2);

    assert_eq!(
        rt.log,
        vec![
            MsgCall::RetIdNoArgs {
                receiver: class(&rt, "NSMenu"),
                selector: selector(&rt, "new"),
            },
            MsgCall::RetIdNoArgs {
                receiver: class(&rt, "NSMenuItem"),
                selector: selector(&rt, "alloc"),
            },
            MsgCall::RetIdIdSelId {
                receiver: item,
                selector: selector(&rt, "initWithTitle:action:keyEquivalent:"),
                a: id(0x500),
                b: quit_sel,
                c: id(0x501),
            },
            MsgCall::RetVoidId {
                receiver: menu,
                selector: selector(&rt, "addItem:"),
                a: item_inited,
            },
        ]
    );
}

#[test]
fn pool_process_info_string_and_view() {
    let mut rt = RecordingRuntime::new();
    let pool = NSAutoreleasePool::new(nil(), &mut rt);
    let _ = NSAutoreleasePool::autorelease(pool, &mut rt);
    let info = NSProcessInfo::processInfo(nil(), &mut rt);
    let _ = NSProcessInfo::processName(info, &mut rt);
    let s = NSString::alloc_(nil(), &mut rt);
    let _ = NSString::initWithUTF8String_(s, &mut rt, id(0x600));
    let v = NSView::alloc_(nil(), &mut rt);
    let _ = NSView::init(v, &mut rt);
    NSView::setWantsBestResolutionOpenGLSurface_(v, &mut rt, true);

    assert_eq!(rt.log.len(), 9);
    assert_eq!(
        rt.log[5],
        MsgCall::RetIdId {
            receiver: s,
            selector: selector(&rt, "initWithUTF8String:"),
            a: id(0x600),
        }
    );
    assert_eq!(
        rt.log[8],
        MsgCall::RetVoidBool {
            receiver: v,
            selector: selector(&rt, "setWantsBestResolutionOpenGLSurface:"),
            a: true,
        }
    );
}

#[test]
fn opengl_view_and_context_flow() {
    let mut rt = RecordingRuntime::new();
    let fmt_alloc = id(0x700);
    let fmt = id(0x701);
    let view_alloc = id(0x702);
    let view = id(0x703);
    let ctx_alloc = id(0x704);
    let ctx = id(0x705);
    for h in [fmt_alloc, fmt, view_alloc, view, ctx_alloc, ctx] {
        rt.push_reply(MsgReply::Handle(h));
    }

    let attrs = vec![
        NSOpenGLPixelFormatAttribute::NSOpenGLPFADoubleBuffer.value(),
        NSOpenGLPixelFormatAttribute::NSOpenGLPFADepthSize.value(),
        24,
        0,
    ];
    let f0 = NSOpenGLPixelFormat::alloc_(nil(), &mut rt);
    let f1 = NSOpenGLPixelFormat::initWithAttributes_(f0, &mut rt, attrs.clone());
    let v0 = NSOpenGLView::alloc_(nil(), &mut rt);
    let frame = rect(0.0, 0.0, 640.0, 480.0);
    let v1 = NSOpenGLView::initWithFrame_pixelFormat_(v0, &mut rt, frame, f1);
    let c0 = NSOpenGLContext::alloc_(nil(), &mut rt);
    let c1 = NSOpenGLContext::initWithFormat_shareContext_(c0, &mut rt, f1, nil());
    NSOpenGLContext::setView_(c1, &mut rt, v1);
    NSOpenGLContext::makeCurrentContext(c1, &mut rt);
    NSOpenGLContext::flushBuffer(c1, &mut rt);

    assert_eq!((f1, v1, c1), (fmt, view, ctx));
    assert_eq!(
        rt.log[1],
        MsgCall::RetIdWords {
            receiver: fmt_alloc,
            selector: selector(&rt, "initWithAttributes:"),
            a: attrs,
        }
    );
    assert_eq!(
        rt.log[3],
        MsgCall::RetIdRectId {
            receiver: view_alloc,
            selector: selector(&rt, "initWithFrame:pixelFormat:"),
            a: frame,
            b: fmt,
        }
    );
    assert_eq!(
        rt.log[5],
        MsgCall::RetIdIdId {
            receiver: ctx_alloc,
            selector: selector(&rt, "initWithFormat:shareContext:"),
            a: fmt,
            b: id(0),
        }
    );
    assert_eq!(
        rt.log[8],
        MsgCall::RetVoidNoArgs { receiver: ctx, selector: selector(&rt, "flushBuffer") }
    );
}
