//! The numeric tables: each enumeration's `value` must give exactly the
//! framework's number, and geometry must carry its bit patterns unchanged.

use cocoa::appkit::{
    NSApplicationActivationPolicy, NSBackingStoreType, NSEventMask, NSEventSubtype, NSEventType,
    NSOpenGLPixelFormatAttribute, NSPoint, NSRect, NSSize, NSWindowMask,
};

#[test]
fn activation_policy_values() {
    assert_eq!(
        NSApplicationActivationPolicy::NSApplicationActivationPolicyRegular.value(),
        0
    );
    assert_eq!(
        NSApplicationActivationPolicy::NSApplicationActivationPolicyERROR.value(),
        -1
    );
}

#[test]
fn window_mask_values() {
    assert_eq!(NSWindowMask::NSBorderlessWindowMask.value(), 0);
    assert_eq!(NSWindowMask::NSTitledWindowMask.value(), 1);
    assert_eq!(NSWindowMask::NSClosableWindowMask.value(), 2);
    assert_eq!(NSWindowMask::NSMiniaturizableWindowMask.value(), 4);
    assert_eq!(NSWindowMask::NSResizableWindowMask.value(), 8);
    assert_eq!(NSWindowMask::NSTexturedBackgroundWindowMask.value(), 256);
    assert_eq!(NSWindowMask::NSUnifiedTitleAndToolbarWindowMask.value(), 4096);
    assert_eq!(NSWindowMask::NSFullScreenWindowMask.value(), 16384);
}

#[test]
fn backing_store_values() {
    assert_eq!(NSBackingStoreType::NSBackingStoreRetained.value(), 0);
    assert_eq!(NSBackingStoreType::NSBackingStoreNonretained.value(), 1);
    assert_eq!(NSBackingStoreType::NSBackingStoreBuffered.value(), 2);
}

#[test]
fn pixel_format_attribute_values() {
    assert_eq!(NSOpenGLPixelFormatAttribute::NSOpenGLPFAAllRenderers.value(), 1);
    assert_eq!(NSOpenGLPixelFormatAttribute::NSOpenGLPFADoubleBuffer.value(), 5);
    assert_eq!(NSOpenGLPixelFormatAttribute::NSOpenGLPFAColorSize.value(), 8);
    assert_eq!(NSOpenGLPixelFormatAttribute::NSOpenGLPFADepthSize.value(), 12);
    assert_eq!(NSOpenGLPixelFormatAttribute::NSOpenGLPFAMPSafe.value(), 78);
    assert_eq!(NSOpenGLPixelFormatAttribute::NSOpenGLPFAOpenGLProfile.value(), 99);
    assert_eq!(
        NSOpenGLPixelFormatAttribute::NSOpenGLPFAVirtualScreenCount.value(),
        128
    );
}

#[test]
fn event_type_values() {
    assert_eq!(NSEventType::NSLeftMouseDown.value(), 1);
    assert_eq!(NSEventType::NSCursorUpdate.value(), 17);
    assert_eq!(NSEventType::NSScrollWheel.value(), 22);
    assert_eq!(NSEventType::NSOtherMouseDragged.value(), 27);
    assert_eq!(NSEventType::NSEventTypeRotate.value(), 18);
    assert_eq!(NSEventType::NSEventTypeSwipe.value(), 31);
}

#[test]
fn event_mask_values_are_one_bit_per_kind() {
    assert_eq!(NSEventMask::NSLeftMouseDownMask.value(), 1 << 1);
    assert_eq!(NSEventMask::NSKeyDownMask.value(), 1 << 10);
    assert_eq!(NSEventMask::NSScrollWheelMask.value(), 1 << 22);
    assert_eq!(NSEventMask::NSEventMaskEndGesture.value(), 1 << 20);
    assert_eq!(NSEventMask::NSAnyEventMask.value(), 0xffffffff);

    // Every single-kind mask is exactly its kind's bit, and is covered by
    // the any-event mask.
    let masks = [
        NSEventMask::NSLeftMouseDownMask,
        NSEventMask::NSLeftMouseUpMask,
        NSEventMask::NSRightMouseDownMask,
        NSEventMask::NSRightMouseUpMask,
        NSEventMask::NSMouseMovedMask,
        NSEventMask::NSLeftMouseDraggedMask,
        NSEventMask::NSRightMouseDraggedMask,
        NSEventMask::NSMouseEnteredMask,
        NSEventMask::NSMouseExitedMask,
        NSEventMask::NSKeyDownMask,
        NSEventMask::NSKeyUpMask,
        NSEventMask::NSFlagsChangedMask,
        NSEventMask::NSAppKitDefinedMask,
        NSEventMask::NSSystemDefinedMask,
        NSEventMask::NSAPplicationDefinedMask,
        NSEventMask::NSPeriodicMask,
        NSEventMask::NSCursorUpdateMask,
        NSEventMask::NSScrollWheelMask,
        NSEventMask::NSTabletPointMask,
        NSEventMask::NSTabletProximityMask,
        NSEventMask::NSOtherMouseDownMask,
        NSEventMask::NSOtherMouseUpMask,
        NSEventMask::NSOtherMouseDraggedMask,
        NSEventMask::NSEventMaskgesture,
        NSEventMask::NSEventMaskSwipe,
        NSEventMask::NSEventMaskRotate,
        NSEventMask::NSEventMaskBeginGesture,
        NSEventMask::NSEventMaskEndGesture,
    ];
    for m in masks {
        assert_eq!(m.value(), 1u64 << m.event_type().value());
        assert_eq!(m.value() & NSEventMask::NSAnyEventMask.value(), m.value());
    }
}

#[test]
fn event_subtype_values() {
    assert_eq!(NSEventSubtype::NSWindowExposedEventType.value(), 0);
    assert_eq!(NSEventSubtype::NSApplicationActivatedEventType.value(), 1);
    assert_eq!(NSEventSubtype::NSApplicationDeactivatedEventType.value(), 2);
    assert_eq!(NSEventSubtype::NSWindowMovedEventType.value(), 4);
    assert_eq!(NSEventSubtype::NSScreenChangedEventType.value(), 8);
    assert_eq!(NSEventSubtype::NSAWTEventType.value(), 16);
}

#[test]
fn geometry_carries_bit_patterns_unchanged() {
    let p = NSPoint::new(10.0f64.to_bits(), 20.0f64.to_bits());
    assert_eq!(f64::from_bits(p.x_bits), 10.0);
    assert_eq!(f64::from_bits(p.y_bits), 20.0);

    let s = NSSize::new(800.0f64.to_bits(), 600.0f64.to_bits());
    let r = NSRect::new(p, s);
    assert_eq!(r.origin, p);
    assert_eq!(f64::from_bits(r.size.width_bits), 800.0);
    assert_eq!(f64::from_bits(r.size.height_bits), 600.0);
}
