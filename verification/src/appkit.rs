//! Framework-side value types: geometry carried as opaque payloads, and the
//! enumeration tables whose numeric values the framework defines.
//!
//! The dispatch layer never interprets geometry; a coordinate is carried as
//! the bit pattern of a double-precision number, produced and consumed by the
//! unverified rim that talks to the live framework.

use vstd::prelude::*;

use crate::base::{MsgCall, ObjCMethodCall, ObjCRuntime, SEL, head_reply, id, sent_one, spec_reply_bool, spec_reply_id, spec_reply_point};

verus! {

/// A point in screen coordinates; each field holds the bit pattern of a
/// double-precision coordinate.
#[derive(Clone, Copy, PartialEq, Eq, Structural, Debug)]
pub struct NSPoint {
    pub x_bits: u64,
    pub y_bits: u64,
}

impl NSPoint {
    pub fn new(x_bits: u64, y_bits: u64) -> (r: NSPoint)
        ensures
            r == (NSPoint { x_bits, y_bits }),
    {
        NSPoint { x_bits, y_bits }
    }
}

/// A width/height pair; each field holds the bit pattern of a
/// double-precision extent.
#[derive(Clone, Copy, PartialEq, Eq, Structural, Debug)]
pub struct NSSize {
    pub width_bits: u64,
    pub height_bits: u64,
}

impl NSSize {
    pub fn new(width_bits: u64, height_bits: u64) -> (r: NSSize)
        ensures
            r == (NSSize { width_bits, height_bits }),
    {
        NSSize { width_bits, height_bits }
    }
}

/// A rectangle: origin point plus size.
#[derive(Clone, Copy, PartialEq, Eq, Structural, Debug)]
pub struct NSRect {
    pub origin: NSPoint,
    pub size: NSSize,
}

impl NSRect {
    pub fn new(origin: NSPoint, size: NSSize) -> (r: NSRect)
        ensures
            r == (NSRect { origin, size }),
    {
        NSRect { origin, size }
    }
}

/// Activation policies an application can request.
#[derive(Clone, Copy, PartialEq, Eq, Structural, Debug)]
pub enum NSApplicationActivationPolicy {
    NSApplicationActivationPolicyRegular,
    NSApplicationActivationPolicyERROR,
}

impl NSApplicationActivationPolicy {
    /// The numeric value the framework assigns to this policy.
    pub open spec fn spec_value(self) -> i64 {
        match self {
            NSApplicationActivationPolicy::NSApplicationActivationPolicyRegular => 0i64,
            NSApplicationActivationPolicy::NSApplicationActivationPolicyERROR => -1i64,
        }
    }

    pub fn value(self) -> (r: i64)
        ensures
            r == self.spec_value(),
    {
        match self {
            NSApplicationActivationPolicy::NSApplicationActivationPolicyRegular => 0i64,
            NSApplicationActivationPolicy::NSApplicationActivationPolicyERROR => -1i64,
        }
    }
}

/// Style mask bits for window creation.
#[derive(Clone, Copy, PartialEq, Eq, Structural, Debug)]
pub enum NSWindowMask {
    NSBorderlessWindowMask,
    NSTitledWindowMask,
    NSClosableWindowMask,
    NSMiniaturizableWindowMask,
    NSResizableWindowMask,
    NSTexturedBackgroundWindowMask,
    NSUnifiedTitleAndToolbarWindowMask,
    NSFullScreenWindowMask,
}

impl NSWindowMask {
    /// The framework's bit value for this mask.
    pub open spec fn spec_value(self) -> u64 {
        match self {
            NSWindowMask::NSBorderlessWindowMask => 0u64,
            NSWindowMask::NSTitledWindowMask => 1u64 << 0,
            NSWindowMask::NSClosableWindowMask => 1u64 << 1,
            NSWindowMask::NSMiniaturizableWindowMask => 1u64 << 2,
            NSWindowMask::NSResizableWindowMask => 1u64 << 3,
            NSWindowMask::NSTexturedBackgroundWindowMask => 1u64 << 8,
            NSWindowMask::NSUnifiedTitleAndToolbarWindowMask => 1u64 << 12,
            NSWindowMask::NSFullScreenWindowMask => 1u64 << 14,
        }
    }

    pub fn value(self) -> (r: u64)
        ensures
            r == self.spec_value(),
    {
        match self {
            NSWindowMask::NSBorderlessWindowMask => 0u64,
            NSWindowMask::NSTitledWindowMask => 1u64 << 0,
            NSWindowMask::NSClosableWindowMask => 1u64 << 1,
            NSWindowMask::NSMiniaturizableWindowMask => 1u64 << 2,
            NSWindowMask::NSResizableWindowMask => 1u64 << 3,
            NSWindowMask::NSTexturedBackgroundWindowMask => 1u64 << 8,
            NSWindowMask::NSUnifiedTitleAndToolbarWindowMask => 1u64 << 12,
            NSWindowMask::NSFullScreenWindowMask => 1u64 << 14,
        }
    }
}

/// Backing store choices for window creation.
#[derive(Clone, Copy, PartialEq, Eq, Structural, Debug)]
pub enum NSBackingStoreType {
    NSBackingStoreRetained,
    NSBackingStoreNonretained,
    NSBackingStoreBuffered,
}

impl NSBackingStoreType {
    /// The framework's numeric value for this backing store type.
    pub open spec fn spec_value(self) -> u64 {
        match self {
            NSBackingStoreType::NSBackingStoreRetained => 0u64,
            NSBackingStoreType::NSBackingStoreNonretained => 1u64,
            NSBackingStoreType::NSBackingStoreBuffered => 2u64,
        }
    }

    pub fn value(self) -> (r: u64)
        ensures
            r == self.spec_value(),
    {
        match self {
            NSBackingStoreType::NSBackingStoreRetained => 0u64,
            NSBackingStoreType::NSBackingStoreNonretained => 1u64,
            NSBackingStoreType::NSBackingStoreBuffered => 2u64,
        }
    }
}

/// Attribute codes accepted when building a pixel format attribute list.
#[derive(Clone, Copy, PartialEq, Eq, Structural, Debug)]
pub enum NSOpenGLPixelFormatAttribute {
    NSOpenGLPFAAllRenderers,
    NSOpenGLPFATripleBuffer,
    NSOpenGLPFADoubleBuffer,
    NSOpenGLPFAStereo,
    NSOpenGLPFAAuxBuffers,
    NSOpenGLPFAColorSize,
    NSOpenGLPFAAlphaSize,
    NSOpenGLPFADepthSize,
    NSOpenGLPFAStencilSize,
    NSOpenGLPFAAccumSize,
    NSOpenGLPFAMinimumPolicy,
    NSOpenGLPFAMaximumPolicy,
    NSOpenGLPFAOffScreen,
    NSOpenGLPFAFullScreen,
    NSOpenGLPFASampleBuffers,
    NSOpenGLPFASamples,
    NSOpenGLPFAAuxDepthStencil,
    NSOpenGLPFAColorFloat,
    NSOpenGLPFAMultisample,
    NSOpenGLPFASupersample,
    NSOpenGLPFASampleAlpha,
    NSOpenGLPFARendererID,
    NSOpenGLPFASingleRenderer,
    NSOpenGLPFANoRecovery,
    NSOpenGLPFAAccelerated,
    NSOpenGLPFAClosestPolicy,
    NSOpenGLPFARobust,
    NSOpenGLPFABackingStore,
    NSOpenGLPFAMPSafe,
    NSOpenGLPFAWindow,
    NSOpenGLPFAMultiScreen,
    NSOpenGLPFACompliant,
    NSOpenGLPFAScreenMask,
    NSOpenGLPFAPixelBuffer,
    NSOpenGLPFARemotePixelBuffer,
    NSOpenGLPFAAllowOfflineRenderers,
    NSOpenGLPFAAcceleratedCompute,
    NSOpenGLPFAOpenGLProfile,
    NSOpenGLPFAVirtualScreenCount,
}

impl NSOpenGLPixelFormatAttribute {
    /// The framework's numeric code for this attribute.
    pub open spec fn spec_value(self) -> u64 {
        match self {
            NSOpenGLPixelFormatAttribute::NSOpenGLPFAAllRenderers => 1u64,
            NSOpenGLPixelFormatAttribute::NSOpenGLPFATripleBuffer => 3u64,
            NSOpenGLPixelFormatAttribute::NSOpenGLPFADoubleBuffer => 5u64,
            NSOpenGLPixelFormatAttribute::NSOpenGLPFAStereo => 6u64,
            NSOpenGLPixelFormatAttribute::NSOpenGLPFAAuxBuffers => 7u64,
            NSOpenGLPixelFormatAttribute::NSOpenGLPFAColorSize => 8u64,
            NSOpenGLPixelFormatAttribute::NSOpenGLPFAAlphaSize => 11u64,
            NSOpenGLPixelFormatAttribute::NSOpenGLPFADepthSize => 12u64,
            NSOpenGLPixelFormatAttribute::NSOpenGLPFAStencilSize => 13u64,
            NSOpenGLPixelFormatAttribute::NSOpenGLPFAAccumSize => 14u64,
            NSOpenGLPixelFormatAttribute::NSOpenGLPFAMinimumPolicy => 51u64,
            NSOpenGLPixelFormatAttribute::NSOpenGLPFAMaximumPolicy => 52u64,
            NSOpenGLPixelFormatAttribute::NSOpenGLPFAOffScreen => 53u64,
            NSOpenGLPixelFormatAttribute::NSOpenGLPFAFullScreen => 54u64,
            NSOpenGLPixelFormatAttribute::NSOpenGLPFASampleBuffers => 55u64,
            NSOpenGLPixelFormatAttribute::NSOpenGLPFASamples => 56u64,
            NSOpenGLPixelFormatAttribute::NSOpenGLPFAAuxDepthStencil => 57u64,
            NSOpenGLPixelFormatAttribute::NSOpenGLPFAColorFloat => 58u64,
            NSOpenGLPixelFormatAttribute::NSOpenGLPFAMultisample => 59u64,
            NSOpenGLPixelFormatAttribute::NSOpenGLPFASupersample => 60u64,
            NSOpenGLPixelFormatAttribute::NSOpenGLPFASampleAlpha => 61u64,
            NSOpenGLPixelFormatAttribute::NSOpenGLPFARendererID => 70u64,
            NSOpenGLPixelFormatAttribute::NSOpenGLPFASingleRenderer => 71u64,
            NSOpenGLPixelFormatAttribute::NSOpenGLPFANoRecovery => 72u64,
            NSOpenGLPixelFormatAttribute::NSOpenGLPFAAccelerated => 73u64,
            NSOpenGLPixelFormatAttribute::NSOpenGLPFAClosestPolicy => 74u64,
            NSOpenGLPixelFormatAttribute::NSOpenGLPFARobust => 75u64,
            NSOpenGLPixelFormatAttribute::NSOpenGLPFABackingStore => 76u64,
            NSOpenGLPixelFormatAttribute::NSOpenGLPFAMPSafe => 78u64,
            NSOpenGLPixelFormatAttribute::NSOpenGLPFAWindow => 80u64,
            NSOpenGLPixelFormatAttribute::NSOpenGLPFAMultiScreen => 81u64,
            NSOpenGLPixelFormatAttribute::NSOpenGLPFACompliant => 83u64,
            NSOpenGLPixelFormatAttribute::NSOpenGLPFAScreenMask => 84u64,
            NSOpenGLPixelFormatAttribute::NSOpenGLPFAPixelBuffer => 90u64,
            NSOpenGLPixelFormatAttribute::NSOpenGLPFARemotePixelBuffer => 91u64,
            NSOpenGLPixelFormatAttribute::NSOpenGLPFAAllowOfflineRenderers => 96u64,
            NSOpenGLPixelFormatAttribute::NSOpenGLPFAAcceleratedCompute => 97u64,
            NSOpenGLPixelFormatAttribute::NSOpenGLPFAOpenGLProfile => 99u64,
            NSOpenGLPixelFormatAttribute::NSOpenGLPFAVirtualScreenCount => 128u64,
        }
    }

    pub fn value(self) -> (r: u64)
        ensures
            r == self.spec_value(),
    {
        match self {
            NSOpenGLPixelFormatAttribute::NSOpenGLPFAAllRenderers => 1u64,
            NSOpenGLPixelFormatAttribute::NSOpenGLPFATripleBuffer => 3u64,
            NSOpenGLPixelFormatAttribute::NSOpenGLPFADoubleBuffer => 5u64,
            NSOpenGLPixelFormatAttribute::NSOpenGLPFAStereo => 6u64,
            NSOpenGLPixelFormatAttribute::NSOpenGLPFAAuxBuffers => 7u64,
            NSOpenGLPixelFormatAttribute::NSOpenGLPFAColorSize => 8u64,
            NSOpenGLPixelFormatAttribute::NSOpenGLPFAAlphaSize => 11u64,
            NSOpenGLPixelFormatAttribute::NSOpenGLPFADepthSize => 12u64,
            NSOpenGLPixelFormatAttribute::NSOpenGLPFAStencilSize => 13u64,
            NSOpenGLPixelFormatAttribute::NSOpenGLPFAAccumSize => 14u64,
            NSOpenGLPixelFormatAttribute::NSOpenGLPFAMinimumPolicy => 51u64,
            NSOpenGLPixelFormatAttribute::NSOpenGLPFAMaximumPolicy => 52u64,
            NSOpenGLPixelFormatAttribute::NSOpenGLPFAOffScreen => 53u64,
            NSOpenGLPixelFormatAttribute::NSOpenGLPFAFullScreen => 54u64,
            NSOpenGLPixelFormatAttribute::NSOpenGLPFASampleBuffers => 55u64,
            NSOpenGLPixelFormatAttribute::NSOpenGLPFASamples => 56u64,
            NSOpenGLPixelFormatAttribute::NSOpenGLPFAAuxDepthStencil => 57u64,
            NSOpenGLPixelFormatAttribute::NSOpenGLPFAColorFloat => 58u64,
            NSOpenGLPixelFormatAttribute::NSOpenGLPFAMultisample => 59u64,
            NSOpenGLPixelFormatAttribute::NSOpenGLPFASupersample => 60u64,
            NSOpenGLPixelFormatAttribute::NSOpenGLPFASampleAlpha => 61u64,
            NSOpenGLPixelFormatAttribute::NSOpenGLPFARendererID => 70u64,
            NSOpenGLPixelFormatAttribute::NSOpenGLPFASingleRenderer => 71u64,
            NSOpenGLPixelFormatAttribute::NSOpenGLPFANoRecovery => 72u64,
            NSOpenGLPixelFormatAttribute::NSOpenGLPFAAccelerated => 73u64,
            NSOpenGLPixelFormatAttribute::NSOpenGLPFAClosestPolicy => 74u64,
            NSOpenGLPixelFormatAttribute::NSOpenGLPFARobust => 75u64,
            NSOpenGLPixelFormatAttribute::NSOpenGLPFABackingStore => 76u64,
            NSOpenGLPixelFormatAttribute::NSOpenGLPFAMPSafe => 78u64,
            NSOpenGLPixelFormatAttribute::NSOpenGLPFAWindow => 80u64,
            NSOpenGLPixelFormatAttribute::NSOpenGLPFAMultiScreen => 81u64,
            NSOpenGLPixelFormatAttribute::NSOpenGLPFACompliant => 83u64,
            NSOpenGLPixelFormatAttribute::NSOpenGLPFAScreenMask => 84u64,
            NSOpenGLPixelFormatAttribute::NSOpenGLPFAPixelBuffer => 90u64,
            NSOpenGLPixelFormatAttribute::NSOpenGLPFARemotePixelBuffer => 91u64,
            NSOpenGLPixelFormatAttribute::NSOpenGLPFAAllowOfflineRenderers => 96u64,
            NSOpenGLPixelFormatAttribute::NSOpenGLPFAAcceleratedCompute => 97u64,
            NSOpenGLPixelFormatAttribute::NSOpenGLPFAOpenGLProfile => 99u64,
            NSOpenGLPixelFormatAttribute::NSOpenGLPFAVirtualScreenCount => 128u64,
        }
    }
}

/// Event kinds the framework reports.
#[derive(Clone, Copy, PartialEq, Eq, Structural, Debug)]
pub enum NSEventType {
    NSLeftMouseDown,
    NSLeftMouseUp,
    NSRightMouseDown,
    NSRightMouseUp,
    NSMouseMoved,
    NSLeftMouseDragged,
    NSRightMouseDragged,
    NSMouseEntered,
    NSMouseExited,
    NSKeyDown,
    NSKeyUp,
    NSFlagsChanged,
    NSAppKitDefined,
    NSSystemDefined,
    NSApplicationDefined,
    NSPeriodic,
    NSCursorUpdate,
    NSScrollWheel,
    NSTabletPoint,
    NSTabletProximity,
    NSOtherMouseDown,
    NSOtherMouseUp,
    NSOtherMouseDragged,
    NSEventTypeGesture,
    NSEventTypeMagnify,
    NSEventTypeSwipe,
    NSEventTypeRotate,
    NSEventTypeBeginGesture,
    NSEventTypeEndGesture,
}

impl NSEventType {
    /// The framework's numeric code for this event kind.
    pub open spec fn spec_value(self) -> u64 {
        match self {
            NSEventType::NSLeftMouseDown => 1u64,
            NSEventType::NSLeftMouseUp => 2u64,
            NSEventType::NSRightMouseDown => 3u64,
            NSEventType::NSRightMouseUp => 4u64,
            NSEventType::NSMouseMoved => 5u64,
            NSEventType::NSLeftMouseDragged => 6u64,
            NSEventType::NSRightMouseDragged => 7u64,
            NSEventType::NSMouseEntered => 8u64,
            NSEventType::NSMouseExited => 9u64,
            NSEventType::NSKeyDown => 10u64,
            NSEventType::NSKeyUp => 11u64,
            NSEventType::NSFlagsChanged => 12u64,
            NSEventType::NSAppKitDefined => 13u64,
            NSEventType::NSSystemDefined => 14u64,
            NSEventType::NSApplicationDefined => 15u64,
            NSEventType::NSPeriodic => 16u64,
            NSEventType::NSCursorUpdate => 17u64,
            NSEventType::NSScrollWheel => 22u64,
            NSEventType::NSTabletPoint => 23u64,
            NSEventType::NSTabletProximity => 24u64,
            NSEventType::NSOtherMouseDown => 25u64,
            NSEventType::NSOtherMouseUp => 26u64,
            NSEventType::NSOtherMouseDragged => 27u64,
            NSEventType::NSEventTypeGesture => 29u64,
            NSEventType::NSEventTypeMagnify => 30u64,
            NSEventType::NSEventTypeSwipe => 31u64,
            NSEventType::NSEventTypeRotate => 18u64,
            NSEventType::NSEventTypeBeginGesture => 19u64,
            NSEventType::NSEventTypeEndGesture => 20u64,
        }
    }

    pub fn value(self) -> (r: u64)
        ensures
            r == self.spec_value(),
    {
        match self {
            NSEventType::NSLeftMouseDown => 1u64,
            NSEventType::NSLeftMouseUp => 2u64,
            NSEventType::NSRightMouseDown => 3u64,
            NSEventType::NSRightMouseUp => 4u64,
            NSEventType::NSMouseMoved => 5u64,
            NSEventType::NSLeftMouseDragged => 6u64,
            NSEventType::NSRightMouseDragged => 7u64,
            NSEventType::NSMouseEntered => 8u64,
            NSEventType::NSMouseExited => 9u64,
            NSEventType::NSKeyDown => 10u64,
            NSEventType::NSKeyUp => 11u64,
            NSEventType::NSFlagsChanged => 12u64,
            NSEventType::NSAppKitDefined => 13u64,
            NSEventType::NSSystemDefined => 14u64,
            NSEventType::NSApplicationDefined => 15u64,
            NSEventType::NSPeriodic => 16u64,
            NSEventType::NSCursorUpdate => 17u64,
            NSEventType::NSScrollWheel => 22u64,
            NSEventType::NSTabletPoint => 23u64,
            NSEventType::NSTabletProximity => 24u64,
            NSEventType::NSOtherMouseDown => 25u64,
            NSEventType::NSOtherMouseUp => 26u64,
            NSEventType::NSOtherMouseDragged => 27u64,
            NSEventType::NSEventTypeGesture => 29u64,
            NSEventType::NSEventTypeMagnify => 30u64,
            NSEventType::NSEventTypeSwipe => 31u64,
            NSEventType::NSEventTypeRotate => 18u64,
            NSEventType::NSEventTypeBeginGesture => 19u64,
            NSEventType::NSEventTypeEndGesture => 20u64,
        }
    }
}

/// Event mask bits: one bit per event kind, the bit index being the kind's
/// numeric code.
#[derive(Clone, Copy, PartialEq, Eq, Structural, Debug)]
pub enum NSEventMask {
    NSLeftMouseDownMask,
    NSLeftMouseUpMask,
    NSRightMouseDownMask,
    NSRightMouseUpMask,
    NSMouseMovedMask,
    NSLeftMouseDraggedMask,
    NSRightMouseDraggedMask,
    NSMouseEnteredMask,
    NSMouseExitedMask,
    NSKeyDownMask,
    NSKeyUpMask,
    NSFlagsChangedMask,
    NSAppKitDefinedMask,
    NSSystemDefinedMask,
    NSAPplicationDefinedMask,
    NSPeriodicMask,
    NSCursorUpdateMask,
    NSScrollWheelMask,
    NSTabletPointMask,
    NSTabletProximityMask,
    NSOtherMouseDownMask,
    NSOtherMouseUpMask,
    NSOtherMouseDraggedMask,
    NSEventMaskgesture,
    NSEventMaskSwipe,
    NSEventMaskRotate,
    NSEventMaskBeginGesture,
    NSEventMaskEndGesture,
    NSAnyEventMask,
}

impl NSEventMask {
    /// The event kind whose code gives this mask's bit index, where there is
    /// one; the any-event mask covers them all.
    pub open spec fn spec_value(self) -> u64 {
        match self {
            NSEventMask::NSLeftMouseDownMask => 1u64 << NSEventType::NSLeftMouseDown.spec_value(),
            NSEventMask::NSLeftMouseUpMask => 1u64 << NSEventType::NSLeftMouseUp.spec_value(),
            NSEventMask::NSRightMouseDownMask => 1u64 << NSEventType::NSRightMouseDown.spec_value(),
            NSEventMask::NSRightMouseUpMask => 1u64 << NSEventType::NSRightMouseUp.spec_value(),
            NSEventMask::NSMouseMovedMask => 1u64 << NSEventType::NSMouseMoved.spec_value(),
            NSEventMask::NSLeftMouseDraggedMask => 1u64
                << NSEventType::NSLeftMouseDragged.spec_value(),
            NSEventMask::NSRightMouseDraggedMask => 1u64
                << NSEventType::NSRightMouseDragged.spec_value(),
            NSEventMask::NSMouseEnteredMask => 1u64 << NSEventType::NSMouseEntered.spec_value(),
            NSEventMask::NSMouseExitedMask => 1u64 << NSEventType::NSMouseExited.spec_value(),
            NSEventMask::NSKeyDownMask => 1u64 << NSEventType::NSKeyDown.spec_value(),
            NSEventMask::NSKeyUpMask => 1u64 << NSEventType::NSKeyUp.spec_value(),
            NSEventMask::NSFlagsChangedMask => 1u64 << NSEventType::NSFlagsChanged.spec_value(),
            NSEventMask::NSAppKitDefinedMask => 1u64 << NSEventType::NSAppKitDefined.spec_value(),
            NSEventMask::NSSystemDefinedMask => 1u64 << NSEventType::NSSystemDefined.spec_value(),
            NSEventMask::NSAPplicationDefinedMask => 1u64
                << NSEventType::NSApplicationDefined.spec_value(),
            NSEventMask::NSPeriodicMask => 1u64 << NSEventType::NSPeriodic.spec_value(),
            NSEventMask::NSCursorUpdateMask => 1u64 << NSEventType::NSCursorUpdate.spec_value(),
            NSEventMask::NSScrollWheelMask => 1u64 << NSEventType::NSScrollWheel.spec_value(),
            NSEventMask::NSTabletPointMask => 1u64 << NSEventType::NSTabletPoint.spec_value(),
            NSEventMask::NSTabletProximityMask => 1u64
                << NSEventType::NSTabletProximity.spec_value(),
            NSEventMask::NSOtherMouseDownMask => 1u64 << NSEventType::NSOtherMouseDown.spec_value(),
            NSEventMask::NSOtherMouseUpMask => 1u64 << NSEventType::NSOtherMouseUp.spec_value(),
            NSEventMask::NSOtherMouseDraggedMask => 1u64
                << NSEventType::NSOtherMouseDragged.spec_value(),
            NSEventMask::NSEventMaskgesture => 1u64 << NSEventType::NSEventTypeGesture.spec_value(),
            NSEventMask::NSEventMaskSwipe => 1u64 << NSEventType::NSEventTypeSwipe.spec_value(),
            NSEventMask::NSEventMaskRotate => 1u64 << NSEventType::NSEventTypeRotate.spec_value(),
            NSEventMask::NSEventMaskBeginGesture => 1u64
                << NSEventType::NSEventTypeBeginGesture.spec_value(),
            NSEventMask::NSEventMaskEndGesture => 1u64
                << NSEventType::NSEventTypeEndGesture.spec_value(),
            NSEventMask::NSAnyEventMask => 0xffffffffu64,
        }
    }

    pub fn value(self) -> (r: u64)
        ensures
            r == self.spec_value(),
    {
        match self {
            NSEventMask::NSAnyEventMask => 0xffffffffu64,
            _ => {
                let t = self.event_type();
                1u64 << t.value()
            },
        }
    }

    /// The event kind this mask selects; the any-event mask is mapped to the
    /// lowest kind, whose own mask bit it also covers.
    pub open spec fn spec_event_type(self) -> NSEventType {
        match self {
            NSEventMask::NSLeftMouseDownMask => NSEventType::NSLeftMouseDown,
            NSEventMask::NSLeftMouseUpMask => NSEventType::NSLeftMouseUp,
            NSEventMask::NSRightMouseDownMask => NSEventType::NSRightMouseDown,
            NSEventMask::NSRightMouseUpMask => NSEventType::NSRightMouseUp,
            NSEventMask::NSMouseMovedMask => NSEventType::NSMouseMoved,
            NSEventMask::NSLeftMouseDraggedMask => NSEventType::NSLeftMouseDragged,
            NSEventMask::NSRightMouseDraggedMask => NSEventType::NSRightMouseDragged,
            NSEventMask::NSMouseEnteredMask => NSEventType::NSMouseEntered,
            NSEventMask::NSMouseExitedMask => NSEventType::NSMouseExited,
            NSEventMask::NSKeyDownMask => NSEventType::NSKeyDown,
            NSEventMask::NSKeyUpMask => NSEventType::NSKeyUp,
            NSEventMask::NSFlagsChangedMask => NSEventType::NSFlagsChanged,
            NSEventMask::NSAppKitDefinedMask => NSEventType::NSAppKitDefined,
            NSEventMask::NSSystemDefinedMask => NSEventType::NSSystemDefined,
            NSEventMask::NSAPplicationDefinedMask => NSEventType::NSApplicationDefined,
            NSEventMask::NSPeriodicMask => NSEventType::NSPeriodic,
            NSEventMask::NSCursorUpdateMask => NSEventType::NSCursorUpdate,
            NSEventMask::NSScrollWheelMask => NSEventType::NSScrollWheel,
            NSEventMask::NSTabletPointMask => NSEventType::NSTabletPoint,
            NSEventMask::NSTabletProximityMask => NSEventType::NSTabletProximity,
            NSEventMask::NSOtherMouseDownMask => NSEventType::NSOtherMouseDown,
            NSEventMask::NSOtherMouseUpMask => NSEventType::NSOtherMouseUp,
            NSEventMask::NSOtherMouseDraggedMask => NSEventType::NSOtherMouseDragged,
            NSEventMask::NSEventMaskgesture => NSEventType::NSEventTypeGesture,
            NSEventMask::NSEventMaskSwipe => NSEventType::NSEventTypeSwipe,
            NSEventMask::NSEventMaskRotate => NSEventType::NSEventTypeRotate,
            NSEventMask::NSEventMaskBeginGesture => NSEventType::NSEventTypeBeginGesture,
            NSEventMask::NSEventMaskEndGesture => NSEventType::NSEventTypeEndGesture,
            NSEventMask::NSAnyEventMask => NSEventType::NSLeftMouseDown,
        }
    }

    pub fn event_type(self) -> (r: NSEventType)
        ensures
            r == self.spec_event_type(),
    {
        match self {
            NSEventMask::NSLeftMouseDownMask => NSEventType::NSLeftMouseDown,
            NSEventMask::NSLeftMouseUpMask => NSEventType::NSLeftMouseUp,
            NSEventMask::NSRightMouseDownMask => NSEventType::NSRightMouseDown,
            NSEventMask::NSRightMouseUpMask => NSEventType::NSRightMouseUp,
            NSEventMask::NSMouseMovedMask => NSEventType::NSMouseMoved,
            NSEventMask::NSLeftMouseDraggedMask => NSEventType::NSLeftMouseDragged,
            NSEventMask::NSRightMouseDraggedMask => NSEventType::NSRightMouseDragged,
            NSEventMask::NSMouseEnteredMask => NSEventType::NSMouseEntered,
            NSEventMask::NSMouseExitedMask => NSEventType::NSMouseExited,
            NSEventMask::NSKeyDownMask => NSEventType::NSKeyDown,
            NSEventMask::NSKeyUpMask => NSEventType::NSKeyUp,
            NSEventMask::NSFlagsChangedMask => NSEventType::NSFlagsChanged,
            NSEventMask::NSAppKitDefinedMask => NSEventType::NSAppKitDefined,
            NSEventMask::NSSystemDefinedMask => NSEventType::NSSystemDefined,
            NSEventMask::NSAPplicationDefinedMask => NSEventType::NSApplicationDefined,
            NSEventMask::NSPeriodicMask => NSEventType::NSPeriodic,
            NSEventMask::NSCursorUpdateMask => NSEventType::NSCursorUpdate,
            NSEventMask::NSScrollWheelMask => NSEventType::NSScrollWheel,
            NSEventMask::NSTabletPointMask => NSEventType::NSTabletPoint,
            NSEventMask::NSTabletProximityMask => NSEventType::NSTabletProximity,
            NSEventMask::NSOtherMouseDownMask => NSEventType::NSOtherMouseDown,
            NSEventMask::NSOtherMouseUpMask => NSEventType::NSOtherMouseUp,
            NSEventMask::NSOtherMouseDraggedMask => NSEventType::NSOtherMouseDragged,
            NSEventMask::NSEventMaskgesture => NSEventType::NSEventTypeGesture,
            NSEventMask::NSEventMaskSwipe => NSEventType::NSEventTypeSwipe,
            NSEventMask::NSEventMaskRotate => NSEventType::NSEventTypeRotate,
            NSEventMask::NSEventMaskBeginGesture => NSEventType::NSEventTypeBeginGesture,
            NSEventMask::NSEventMaskEndGesture => NSEventType::NSEventTypeEndGesture,
            NSEventMask::NSAnyEventMask => NSEventType::NSLeftMouseDown,
        }
    }
}

/// Subtypes reported for framework-defined and system-defined events.
#[derive(Clone, Copy, PartialEq, Eq, Structural, Debug)]
pub enum NSEventSubtype {
    NSWindowExposedEventType,
    NSApplicationActivatedEventType,
    NSApplicationDeactivatedEventType,
    NSWindowMovedEventType,
    NSScreenChangedEventType,
    NSAWTEventType,
}

impl NSEventSubtype {
    /// The framework's numeric code for this subtype.
    pub open spec fn spec_value(self) -> u64 {
        match self {
            NSEventSubtype::NSWindowExposedEventType => 0u64,
            NSEventSubtype::NSApplicationActivatedEventType => 1u64,
            NSEventSubtype::NSApplicationDeactivatedEventType => 2u64,
            NSEventSubtype::NSWindowMovedEventType => 4u64,
            NSEventSubtype::NSScreenChangedEventType => 8u64,
            NSEventSubtype::NSAWTEventType => 16u64,
        }
    }

    pub fn value(self) -> (r: u64)
        ensures
            r == self.spec_value(),
    {
        match self {
            NSEventSubtype::NSWindowExposedEventType => 0u64,
            NSEventSubtype::NSApplicationActivatedEventType => 1u64,
            NSEventSubtype::NSApplicationDeactivatedEventType => 2u64,
            NSEventSubtype::NSWindowMovedEventType => 4u64,
            NSEventSubtype::NSScreenChangedEventType => 8u64,
            NSEventSubtype::NSAWTEventType => 16u64,
        }
    }
}


/// Autorelease pool management. Every operation is one fixed dispatch call with a literal
/// selector; the receiver trait supplies `receiver()` so class-side
/// operations can name their class.
pub trait NSAutoreleasePool: Sized {
    /// The handle this receiver stands for.
    spec fn receiver(self) -> id;

    /// Routes one foreign call: sends `new` to the `NSAutoreleasePool` class.
    fn new<R: ObjCRuntime>(_this: Self, rt: &mut R) -> (r: id)
        ensures
            sent_one(*old(rt), *final(rt), (MsgCall::RetIdNoArgs { receiver: old(rt).class_ref("NSAutoreleasePool"@), selector: old(rt).sel_token("new"@), })),
            r == spec_reply_id(head_reply(old(rt).pending())),
    ;
    /// Routes one foreign call: sends `autorelease` to this receiver.
    fn autorelease<R: ObjCRuntime>(self, rt: &mut R) -> (r: id)
        ensures
            sent_one(*old(rt), *final(rt), (MsgCall::RetIdNoArgs { receiver: self.receiver(), selector: old(rt).sel_token("autorelease"@), })),
            r == spec_reply_id(head_reply(old(rt).pending())),
    ;
}

impl NSAutoreleasePool for id {
    open spec fn receiver(self) -> id {
        self
    }

    fn new<R: ObjCRuntime>(_this: Self, rt: &mut R) -> (r: id) {
        "NSAutoreleasePool".send(rt, "new", ())
    }
    fn autorelease<R: ObjCRuntime>(self, rt: &mut R) -> (r: id) {
        self.send(rt, "autorelease", ())
    }
}

/// Process information lookup. Every operation is one fixed dispatch call with a literal
/// selector; the receiver trait supplies `receiver()` so class-side
/// operations can name their class.
pub trait NSProcessInfo: Sized {
    /// The handle this receiver stands for.
    spec fn receiver(self) -> id;

    /// Routes one foreign call: sends `processInfo` to the `NSProcessInfo` class.
    fn processInfo<R: ObjCRuntime>(_this: Self, rt: &mut R) -> (r: id)
        ensures
            sent_one(*old(rt), *final(rt), (MsgCall::RetIdNoArgs { receiver: old(rt).class_ref("NSProcessInfo"@), selector: old(rt).sel_token("processInfo"@), })),
            r == spec_reply_id(head_reply(old(rt).pending())),
    ;
    /// Routes one foreign call: sends `processName` to this receiver.
    fn processName<R: ObjCRuntime>(self, rt: &mut R) -> (r: id)
        ensures
            sent_one(*old(rt), *final(rt), (MsgCall::RetIdNoArgs { receiver: self.receiver(), selector: old(rt).sel_token("processName"@), })),
            r == spec_reply_id(head_reply(old(rt).pending())),
    ;
}

impl NSProcessInfo for id {
    open spec fn receiver(self) -> id {
        self
    }

    fn processInfo<R: ObjCRuntime>(_this: Self, rt: &mut R) -> (r: id) {
        "NSProcessInfo".send(rt, "processInfo", ())
    }
    fn processName<R: ObjCRuntime>(self, rt: &mut R) -> (r: id) {
        self.send(rt, "processName", ())
    }
}

/// The shared application object and its run loop. Every operation is one fixed dispatch call with a literal
/// selector; the receiver trait supplies `receiver()` so class-side
/// operations can name their class.
pub trait NSApplication: Sized {
    /// The handle this receiver stands for.
    spec fn receiver(self) -> id;

    /// Routes one foreign call: sends `sharedApplication` to the `NSApplication` class.
    fn sharedApplication<R: ObjCRuntime>(_this: Self, rt: &mut R) -> (r: id)
        ensures
            sent_one(*old(rt), *final(rt), (MsgCall::RetIdNoArgs { receiver: old(rt).class_ref("NSApplication"@), selector: old(rt).sel_token("sharedApplication"@), })),
            r == spec_reply_id(head_reply(old(rt).pending())),
    ;
    /// Routes one foreign call: sends `setActivationPolicy:` to this receiver.
    fn setActivationPolicy_<R: ObjCRuntime>(self, rt: &mut R, policy: NSApplicationActivationPolicy) -> (r: bool)
        ensures
            sent_one(*old(rt), *final(rt), (MsgCall::RetBoolLong { receiver: self.receiver(), selector: old(rt).sel_token("setActivationPolicy:"@), a: policy.spec_value() })),
            r == spec_reply_bool(head_reply(old(rt).pending())),
    ;
    /// Routes one foreign call: sends `setMainMenu:` to this receiver.
    fn setMainMenu_<R: ObjCRuntime>(self, rt: &mut R, menu: id)
        ensures
            sent_one(*old(rt), *final(rt), (MsgCall::RetVoidId { receiver: self.receiver(), selector: old(rt).sel_token("setMainMenu:"@), a: menu })),
    ;
    /// Routes one foreign call: sends `activateIgnoringOtherApps:` to this receiver.
    fn activateIgnoringOtherApps_<R: ObjCRuntime>(self, rt: &mut R, ignore: bool)
        ensures
            sent_one(*old(rt), *final(rt), (MsgCall::RetVoidBool { receiver: self.receiver(), selector: old(rt).sel_token("activateIgnoringOtherApps:"@), a: ignore })),
    ;
    /// Routes one foreign call: sends `run` to this receiver.
    fn run<R: ObjCRuntime>(self, rt: &mut R)
        ensures
            sent_one(*old(rt), *final(rt), (MsgCall::RetVoidNoArgs { receiver: self.receiver(), selector: old(rt).sel_token("run"@), })),
    ;
    /// Routes one foreign call: sends `finishLaunching` to this receiver.
    fn finishLaunching<R: ObjCRuntime>(self, rt: &mut R)
        ensures
            sent_one(*old(rt), *final(rt), (MsgCall::RetVoidNoArgs { receiver: self.receiver(), selector: old(rt).sel_token("finishLaunching"@), })),
    ;
    /// Routes one foreign call: sends `nextEventMatchingMask:untilDate:inMode:dequeue:` to this receiver.
    fn nextEventMatchingMask_untilDate_inMode_dequeue_<R: ObjCRuntime>(self, rt: &mut R, mask: u64, expiration: id, in_mode: id, dequeue: bool) -> (r: id)
        ensures
            sent_one(*old(rt), *final(rt), (MsgCall::RetIdUintIdIdBool { receiver: self.receiver(), selector: old(rt).sel_token("nextEventMatchingMask:untilDate:inMode:dequeue:"@), a: mask, b: expiration, c: in_mode, d: dequeue })),
            r == spec_reply_id(head_reply(old(rt).pending())),
    ;
    /// Routes one foreign call: sends `sendEvent:` to this receiver.
    fn sendEvent_<R: ObjCRuntime>(self, rt: &mut R, an_event: id)
        ensures
            sent_one(*old(rt), *final(rt), (MsgCall::RetVoidId { receiver: self.receiver(), selector: old(rt).sel_token("sendEvent:"@), a: an_event })),
    ;
}

impl NSApplication for id {
    open spec fn receiver(self) -> id {
        self
    }

    fn sharedApplication<R: ObjCRuntime>(_this: Self, rt: &mut R) -> (r: id) {
        "NSApplication".send(rt, "sharedApplication", ())
    }
    fn setActivationPolicy_<R: ObjCRuntime>(self, rt: &mut R, policy: NSApplicationActivationPolicy) -> (r: bool) {
        self.send_bool(rt, "setActivationPolicy:", policy.value())
    }
    fn setMainMenu_<R: ObjCRuntime>(self, rt: &mut R, menu: id) {
        self.send_void(rt, "setMainMenu:", menu)
    }
    fn activateIgnoringOtherApps_<R: ObjCRuntime>(self, rt: &mut R, ignore: bool) {
        self.send_void(rt, "activateIgnoringOtherApps:", ignore)
    }
    fn run<R: ObjCRuntime>(self, rt: &mut R) {
        self.send_void(rt, "run", ())
    }
    fn finishLaunching<R: ObjCRuntime>(self, rt: &mut R) {
        self.send_void(rt, "finishLaunching", ())
    }
    fn nextEventMatchingMask_untilDate_inMode_dequeue_<R: ObjCRuntime>(self, rt: &mut R, mask: u64, expiration: id, in_mode: id, dequeue: bool) -> (r: id) {
        self.send(rt, "nextEventMatchingMask:untilDate:inMode:dequeue:", (mask, expiration, in_mode, dequeue))
    }
    fn sendEvent_<R: ObjCRuntime>(self, rt: &mut R, an_event: id) {
        self.send_void(rt, "sendEvent:", an_event)
    }
}

/// Menu construction. Every operation is one fixed dispatch call with a literal
/// selector; the receiver trait supplies `receiver()` so class-side
/// operations can name their class.
pub trait NSMenu: Sized {
    /// The handle this receiver stands for.
    spec fn receiver(self) -> id;

    /// Routes one foreign call: sends `new` to the `NSMenu` class.
    fn new<R: ObjCRuntime>(_this: Self, rt: &mut R) -> (r: id)
        ensures
            sent_one(*old(rt), *final(rt), (MsgCall::RetIdNoArgs { receiver: old(rt).class_ref("NSMenu"@), selector: old(rt).sel_token("new"@), })),
            r == spec_reply_id(head_reply(old(rt).pending())),
    ;
    /// Routes one foreign call: sends `addItem:` to this receiver.
    fn addItem_<R: ObjCRuntime>(self, rt: &mut R, menu_item: id)
        ensures
            sent_one(*old(rt), *final(rt), (MsgCall::RetVoidId { receiver: self.receiver(), selector: old(rt).sel_token("addItem:"@), a: menu_item })),
    ;
}

impl NSMenu for id {
    open spec fn receiver(self) -> id {
        self
    }

    fn new<R: ObjCRuntime>(_this: Self, rt: &mut R) -> (r: id) {
        "NSMenu".send(rt, "new", ())
    }
    fn addItem_<R: ObjCRuntime>(self, rt: &mut R, menu_item: id) {
        self.send_void(rt, "addItem:", menu_item)
    }
}

/// Menu item construction. Every operation is one fixed dispatch call with a literal
/// selector; the receiver trait supplies `receiver()` so class-side
/// operations can name their class.
pub trait NSMenuItem: Sized {
    /// The handle this receiver stands for.
    spec fn receiver(self) -> id;

    /// Routes one foreign call: sends `alloc` to the `NSMenuItem` class.
    fn alloc_<R: ObjCRuntime>(_this: Self, rt: &mut R) -> (r: id)
        ensures
            sent_one(*old(rt), *final(rt), (MsgCall::RetIdNoArgs { receiver: old(rt).class_ref("NSMenuItem"@), selector: old(rt).sel_token("alloc"@), })),
            r == spec_reply_id(head_reply(old(rt).pending())),
    ;
    /// Routes one foreign call: sends `new` to the `NSMenuItem` class.
    fn new<R: ObjCRuntime>(_this: Self, rt: &mut R) -> (r: id)
        ensures
            sent_one(*old(rt), *final(rt), (MsgCall::RetIdNoArgs { receiver: old(rt).class_ref("NSMenuItem"@), selector: old(rt).sel_token("new"@), })),
            r == spec_reply_id(head_reply(old(rt).pending())),
    ;
    /// Routes one foreign call: sends `initWithTitle:action:keyEquivalent:` to this receiver.
    fn initWithTitle_action_keyEquivalent_<R: ObjCRuntime>(self, rt: &mut R, title: id, action: SEL, key: id) -> (r: id)
        ensures
            sent_one(*old(rt), *final(rt), (MsgCall::RetIdIdSelId { receiver: self.receiver(), selector: old(rt).sel_token("initWithTitle:action:keyEquivalent:"@), a: title, b: action, c: key })),
            r == spec_reply_id(head_reply(old(rt).pending())),
    ;
    /// Routes one foreign call: sends `setSubmenu:` to this receiver.
    fn setSubmenu_<R: ObjCRuntime>(self, rt: &mut R, submenu: id)
        ensures
            sent_one(*old(rt), *final(rt), (MsgCall::RetVoidId { receiver: self.receiver(), selector: old(rt).sel_token("setSubmenu:"@), a: submenu })),
    ;
}

impl NSMenuItem for id {
    open spec fn receiver(self) -> id {
        self
    }

    fn alloc_<R: ObjCRuntime>(_this: Self, rt: &mut R) -> (r: id) {
        "NSMenuItem".send(rt, "alloc", ())
    }
    fn new<R: ObjCRuntime>(_this: Self, rt: &mut R) -> (r: id) {
        "NSMenuItem".send(rt, "new", ())
    }
    fn initWithTitle_action_keyEquivalent_<R: ObjCRuntime>(self, rt: &mut R, title: id, action: SEL, key: id) -> (r: id) {
        self.send(rt, "initWithTitle:action:keyEquivalent:", (title, action, key))
    }
    fn setSubmenu_<R: ObjCRuntime>(self, rt: &mut R, submenu: id) {
        self.send_void(rt, "setSubmenu:", submenu)
    }
}

/// Window creation and placement. Every operation is one fixed dispatch call with a literal
/// selector; the receiver trait supplies `receiver()` so class-side
/// operations can name their class.
pub trait NSWindow: Sized {
    /// The handle this receiver stands for.
    spec fn receiver(self) -> id;

    /// Routes one foreign call: sends `alloc` to the `NSWindow` class.
    fn alloc_<R: ObjCRuntime>(_this: Self, rt: &mut R) -> (r: id)
        ensures
            sent_one(*old(rt), *final(rt), (MsgCall::RetIdNoArgs { receiver: old(rt).class_ref("NSWindow"@), selector: old(rt).sel_token("alloc"@), })),
            r == spec_reply_id(head_reply(old(rt).pending())),
    ;
    /// Routes one foreign call: sends `initWithContentRect:styleMask:backing:defer:` to this receiver.
    fn initWithContentRect_styleMask_backing_defer_<R: ObjCRuntime>(self, rt: &mut R, rect: NSRect, style: u64, backing: NSBackingStoreType, defer: bool) -> (r: id)
        ensures
            sent_one(*old(rt), *final(rt), (MsgCall::RetIdRectUlongUlongBool { receiver: self.receiver(), selector: old(rt).sel_token("initWithContentRect:styleMask:backing:defer:"@), a: rect, b: style, c: backing.spec_value(), d: defer })),
            r == spec_reply_id(head_reply(old(rt).pending())),
    ;
    /// Routes one foreign call: sends `cascadeTopLeftFromPoint:` to this receiver.
    fn cascadeTopLeftFromPoint_<R: ObjCRuntime>(self, rt: &mut R, top_left: NSPoint) -> (r: NSPoint)
        ensures
            sent_one(*old(rt), *final(rt), (MsgCall::RetPointPoint { receiver: self.receiver(), selector: old(rt).sel_token("cascadeTopLeftFromPoint:"@), a: top_left })),
            r == spec_reply_point(head_reply(old(rt).pending())),
    ;
    /// Routes one foreign call: sends `setTitle:` to this receiver.
    fn setTitle_<R: ObjCRuntime>(self, rt: &mut R, title: id)
        ensures
            sent_one(*old(rt), *final(rt), (MsgCall::RetVoidId { receiver: self.receiver(), selector: old(rt).sel_token("setTitle:"@), a: title })),
    ;
    /// Routes one foreign call: sends `makeKeyAndOrderFront:` to this receiver.
    fn makeKeyAndOrderFront_<R: ObjCRuntime>(self, rt: &mut R, sender: id)
        ensures
            sent_one(*old(rt), *final(rt), (MsgCall::RetVoidId { receiver: self.receiver(), selector: old(rt).sel_token("makeKeyAndOrderFront:"@), a: sender })),
    ;
    /// Routes one foreign call: sends `center` to this receiver.
    fn center<R: ObjCRuntime>(self, rt: &mut R)
        ensures
            sent_one(*old(rt), *final(rt), (MsgCall::RetVoidNoArgs { receiver: self.receiver(), selector: old(rt).sel_token("center"@), })),
    ;
    /// Routes one foreign call: sends `setContentView:` to this receiver.
    fn setContentView<R: ObjCRuntime>(self, rt: &mut R, view: id)
        ensures
            sent_one(*old(rt), *final(rt), (MsgCall::RetVoidId { receiver: self.receiver(), selector: old(rt).sel_token("setContentView:"@), a: view })),
    ;
}

impl NSWindow for id {
    open spec fn receiver(self) -> id {
        self
    }

    fn alloc_<R: ObjCRuntime>(_this: Self, rt: &mut R) -> (r: id) {
        "NSWindow".send(rt, "alloc", ())
    }
    fn initWithContentRect_styleMask_backing_defer_<R: ObjCRuntime>(self, rt: &mut R, rect: NSRect, style: u64, backing: NSBackingStoreType, defer: bool) -> (r: id) {
        self.send(rt, "initWithContentRect:styleMask:backing:defer:", (rect, style, backing.value(), defer))
    }
    fn cascadeTopLeftFromPoint_<R: ObjCRuntime>(self, rt: &mut R, top_left: NSPoint) -> (r: NSPoint) {
        self.send_point(rt, "cascadeTopLeftFromPoint:", top_left)
    }
    fn setTitle_<R: ObjCRuntime>(self, rt: &mut R, title: id) {
        self.send_void(rt, "setTitle:", title)
    }
    fn makeKeyAndOrderFront_<R: ObjCRuntime>(self, rt: &mut R, sender: id) {
        self.send_void(rt, "makeKeyAndOrderFront:", sender)
    }
    fn center<R: ObjCRuntime>(self, rt: &mut R) {
        self.send_void(rt, "center", ())
    }
    fn setContentView<R: ObjCRuntime>(self, rt: &mut R, view: id) {
        self.send_void(rt, "setContentView:", view)
    }
}

/// Framework string construction. Turning host text into a C string
/// pointer happens outside this layer; here a pointer travels as an opaque
/// handle word. Every operation is one fixed dispatch call with a literal
/// selector; the receiver trait supplies `receiver()` so class-side
/// operations can name their class.
pub trait NSString: Sized {
    /// The handle this receiver stands for.
    spec fn receiver(self) -> id;

    /// Routes one foreign call: sends `alloc` to the `NSString` class.
    fn alloc_<R: ObjCRuntime>(_this: Self, rt: &mut R) -> (r: id)
        ensures
            sent_one(*old(rt), *final(rt), (MsgCall::RetIdNoArgs { receiver: old(rt).class_ref("NSString"@), selector: old(rt).sel_token("alloc"@), })),
            r == spec_reply_id(head_reply(old(rt).pending())),
    ;
    /// Routes one foreign call: sends `initWithUTF8String:` to this receiver.
    fn initWithUTF8String_<R: ObjCRuntime>(self, rt: &mut R, c_string: id) -> (r: id)
        ensures
            sent_one(*old(rt), *final(rt), (MsgCall::RetIdId { receiver: self.receiver(), selector: old(rt).sel_token("initWithUTF8String:"@), a: c_string })),
            r == spec_reply_id(head_reply(old(rt).pending())),
    ;
    /// Routes one foreign call: sends `stringByAppendingString:` to this receiver.
    fn stringByAppendingString_<R: ObjCRuntime>(self, rt: &mut R, other: id) -> (r: id)
        ensures
            sent_one(*old(rt), *final(rt), (MsgCall::RetIdId { receiver: self.receiver(), selector: old(rt).sel_token("stringByAppendingString:"@), a: other })),
            r == spec_reply_id(head_reply(old(rt).pending())),
    ;
}

impl NSString for id {
    open spec fn receiver(self) -> id {
        self
    }

    fn alloc_<R: ObjCRuntime>(_this: Self, rt: &mut R) -> (r: id) {
        "NSString".send(rt, "alloc", ())
    }
    fn initWithUTF8String_<R: ObjCRuntime>(self, rt: &mut R, c_string: id) -> (r: id) {
        self.send(rt, "initWithUTF8String:", c_string)
    }
    fn stringByAppendingString_<R: ObjCRuntime>(self, rt: &mut R, other: id) -> (r: id) {
        self.send(rt, "stringByAppendingString:", other)
    }
}

/// View setup. Every operation is one fixed dispatch call with a literal
/// selector; the receiver trait supplies `receiver()` so class-side
/// operations can name their class.
pub trait NSView: Sized {
    /// The handle this receiver stands for.
    spec fn receiver(self) -> id;

    /// Routes one foreign call: sends `alloc` to the `NSView` class.
    fn alloc_<R: ObjCRuntime>(_this: Self, rt: &mut R) -> (r: id)
        ensures
            sent_one(*old(rt), *final(rt), (MsgCall::RetIdNoArgs { receiver: old(rt).class_ref("NSView"@), selector: old(rt).sel_token("alloc"@), })),
            r == spec_reply_id(head_reply(old(rt).pending())),
    ;
    /// Routes one foreign call: sends `init` to this receiver.
    fn init<R: ObjCRuntime>(self, rt: &mut R) -> (r: id)
        ensures
            sent_one(*old(rt), *final(rt), (MsgCall::RetIdNoArgs { receiver: self.receiver(), selector: old(rt).sel_token("init"@), })),
            r == spec_reply_id(head_reply(old(rt).pending())),
    ;
    /// Routes one foreign call: sends `initWithFrame:` to this receiver.
    fn initWithFrame_<R: ObjCRuntime>(self, rt: &mut R, frameRect: NSRect) -> (r: id)
        ensures
            sent_one(*old(rt), *final(rt), (MsgCall::RetIdRect { receiver: self.receiver(), selector: old(rt).sel_token("initWithFrame:"@), a: frameRect })),
            r == spec_reply_id(head_reply(old(rt).pending())),
    ;
    /// Routes one foreign call: sends `display` to this receiver.
    fn display_<R: ObjCRuntime>(self, rt: &mut R)
        ensures
            sent_one(*old(rt), *final(rt), (MsgCall::RetVoidNoArgs { receiver: self.receiver(), selector: old(rt).sel_token("display"@), })),
    ;
    /// Routes one foreign call: sends `setWantsBestResolutionOpenGLSurface:` to this receiver.
    fn setWantsBestResolutionOpenGLSurface_<R: ObjCRuntime>(self, rt: &mut R, flag: bool)
        ensures
            sent_one(*old(rt), *final(rt), (MsgCall::RetVoidBool { receiver: self.receiver(), selector: old(rt).sel_token("setWantsBestResolutionOpenGLSurface:"@), a: flag })),
    ;
}

impl NSView for id {
    open spec fn receiver(self) -> id {
        self
    }

    fn alloc_<R: ObjCRuntime>(_this: Self, rt: &mut R) -> (r: id) {
        "NSView".send(rt, "alloc", ())
    }
    fn init<R: ObjCRuntime>(self, rt: &mut R) -> (r: id) {
        self.send(rt, "init", ())
    }
    fn initWithFrame_<R: ObjCRuntime>(self, rt: &mut R, frameRect: NSRect) -> (r: id) {
        self.send(rt, "initWithFrame:", frameRect)
    }
    fn display_<R: ObjCRuntime>(self, rt: &mut R) {
        self.send_void(rt, "display", ())
    }
    fn setWantsBestResolutionOpenGLSurface_<R: ObjCRuntime>(self, rt: &mut R, flag: bool) {
        self.send_void(rt, "setWantsBestResolutionOpenGLSurface:", flag)
    }
}

/// OpenGL view setup. Every operation is one fixed dispatch call with a literal
/// selector; the receiver trait supplies `receiver()` so class-side
/// operations can name their class.
pub trait NSOpenGLView: Sized {
    /// The handle this receiver stands for.
    spec fn receiver(self) -> id;

    /// Routes one foreign call: sends `alloc` to the `NSOpenGLView` class.
    fn alloc_<R: ObjCRuntime>(_this: Self, rt: &mut R) -> (r: id)
        ensures
            sent_one(*old(rt), *final(rt), (MsgCall::RetIdNoArgs { receiver: old(rt).class_ref("NSOpenGLView"@), selector: old(rt).sel_token("alloc"@), })),
            r == spec_reply_id(head_reply(old(rt).pending())),
    ;
    /// Routes one foreign call: sends `initWithFrame:pixelFormat:` to this receiver.
    fn initWithFrame_pixelFormat_<R: ObjCRuntime>(self, rt: &mut R, frameRect: NSRect, format: id) -> (r: id)
        ensures
            sent_one(*old(rt), *final(rt), (MsgCall::RetIdRectId { receiver: self.receiver(), selector: old(rt).sel_token("initWithFrame:pixelFormat:"@), a: frameRect, b: format })),
            r == spec_reply_id(head_reply(old(rt).pending())),
    ;
    /// Routes one foreign call: sends `display` to this receiver.
    fn display_<R: ObjCRuntime>(self, rt: &mut R)
        ensures
            sent_one(*old(rt), *final(rt), (MsgCall::RetVoidNoArgs { receiver: self.receiver(), selector: old(rt).sel_token("display"@), })),
    ;
}

impl NSOpenGLView for id {
    open spec fn receiver(self) -> id {
        self
    }

    fn alloc_<R: ObjCRuntime>(_this: Self, rt: &mut R) -> (r: id) {
        "NSOpenGLView".send(rt, "alloc", ())
    }
    fn initWithFrame_pixelFormat_<R: ObjCRuntime>(self, rt: &mut R, frameRect: NSRect, format: id) -> (r: id) {
        self.send(rt, "initWithFrame:pixelFormat:", (frameRect, format))
    }
    fn display_<R: ObjCRuntime>(self, rt: &mut R) {
        self.send_void(rt, "display", ())
    }
}

/// Pixel format construction from an attribute word list. Every operation is one fixed dispatch call with a literal
/// selector; the receiver trait supplies `receiver()` so class-side
/// operations can name their class.
pub trait NSOpenGLPixelFormat: Sized {
    /// The handle this receiver stands for.
    spec fn receiver(self) -> id;

    /// Routes one foreign call: sends `alloc` to the `NSOpenGLPixelFormat` class.
    fn alloc_<R: ObjCRuntime>(_this: Self, rt: &mut R) -> (r: id)
        ensures
            sent_one(*old(rt), *final(rt), (MsgCall::RetIdNoArgs { receiver: old(rt).class_ref("NSOpenGLPixelFormat"@), selector: old(rt).sel_token("alloc"@), })),
            r == spec_reply_id(head_reply(old(rt).pending())),
    ;
    /// Routes one foreign call: sends `initWithAttributes:` to this receiver.
    fn initWithAttributes_<R: ObjCRuntime>(self, rt: &mut R, attributes: Vec<u64>) -> (r: id)
        ensures
            sent_one(*old(rt), *final(rt), (MsgCall::RetIdWords { receiver: self.receiver(), selector: old(rt).sel_token("initWithAttributes:"@), a: attributes })),
            r == spec_reply_id(head_reply(old(rt).pending())),
    ;
}

impl NSOpenGLPixelFormat for id {
    open spec fn receiver(self) -> id {
        self
    }

    fn alloc_<R: ObjCRuntime>(_this: Self, rt: &mut R) -> (r: id) {
        "NSOpenGLPixelFormat".send(rt, "alloc", ())
    }
    fn initWithAttributes_<R: ObjCRuntime>(self, rt: &mut R, attributes: Vec<u64>) -> (r: id) {
        self.send(rt, "initWithAttributes:", attributes)
    }
}

/// OpenGL context setup. Every operation is one fixed dispatch call with a literal
/// selector; the receiver trait supplies `receiver()` so class-side
/// operations can name their class.
pub trait NSOpenGLContext: Sized {
    /// The handle this receiver stands for.
    spec fn receiver(self) -> id;

    /// Routes one foreign call: sends `alloc` to the `NSOpenGLContext` class.
    fn alloc_<R: ObjCRuntime>(_this: Self, rt: &mut R) -> (r: id)
        ensures
            sent_one(*old(rt), *final(rt), (MsgCall::RetIdNoArgs { receiver: old(rt).class_ref("NSOpenGLContext"@), selector: old(rt).sel_token("alloc"@), })),
            r == spec_reply_id(head_reply(old(rt).pending())),
    ;
    /// Routes one foreign call: sends `initWithFormat:shareContext:` to this receiver.
    fn initWithFormat_shareContext_<R: ObjCRuntime>(self, rt: &mut R, format: id, shareContext: id) -> (r: id)
        ensures
            sent_one(*old(rt), *final(rt), (MsgCall::RetIdIdId { receiver: self.receiver(), selector: old(rt).sel_token("initWithFormat:shareContext:"@), a: format, b: shareContext })),
            r == spec_reply_id(head_reply(old(rt).pending())),
    ;
    /// Routes one foreign call: sends `setView:` to this receiver.
    fn setView_<R: ObjCRuntime>(self, rt: &mut R, view: id)
        ensures
            sent_one(*old(rt), *final(rt), (MsgCall::RetVoidId { receiver: self.receiver(), selector: old(rt).sel_token("setView:"@), a: view })),
    ;
    /// Routes one foreign call: sends `makeCurrentContext` to this receiver.
    fn makeCurrentContext<R: ObjCRuntime>(self, rt: &mut R)
        ensures
            sent_one(*old(rt), *final(rt), (MsgCall::RetVoidNoArgs { receiver: self.receiver(), selector: old(rt).sel_token("makeCurrentContext"@), })),
    ;
    /// Routes one foreign call: sends `flushBuffer` to this receiver.
    fn flushBuffer<R: ObjCRuntime>(self, rt: &mut R)
        ensures
            sent_one(*old(rt), *final(rt), (MsgCall::RetVoidNoArgs { receiver: self.receiver(), selector: old(rt).sel_token("flushBuffer"@), })),
    ;
}

impl NSOpenGLContext for id {
    open spec fn receiver(self) -> id {
        self
    }

    fn alloc_<R: ObjCRuntime>(_this: Self, rt: &mut R) -> (r: id) {
        "NSOpenGLContext".send(rt, "alloc", ())
    }
    fn initWithFormat_shareContext_<R: ObjCRuntime>(self, rt: &mut R, format: id, shareContext: id) -> (r: id) {
        self.send(rt, "initWithFormat:shareContext:", (format, shareContext))
    }
    fn setView_<R: ObjCRuntime>(self, rt: &mut R, view: id) {
        self.send_void(rt, "setView:", view)
    }
    fn makeCurrentContext<R: ObjCRuntime>(self, rt: &mut R) {
        self.send_void(rt, "makeCurrentContext", ())
    }
    fn flushBuffer<R: ObjCRuntime>(self, rt: &mut R) {
        self.send_void(rt, "flushBuffer", ())
    }
}

/// The shared application object: sends `sharedApplication` to the
/// `NSApplication` class.
pub fn NSApp<R: ObjCRuntime>(rt: &mut R) -> (r: id)
    ensures
        sent_one(
            *old(rt),
            *final(rt),
            (MsgCall::RetIdNoArgs {
                receiver: old(rt).class_ref("NSApplication"@),
                selector: old(rt).sel_token("sharedApplication"@),
            }),
        ),
        r == spec_reply_id(head_reply(old(rt).pending())),
{
    "NSApplication".send(rt, "sharedApplication", ())
}


} // verus!
