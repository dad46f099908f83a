//! The typed message-dispatch core.
//!
//! A message send names a receiver (an object handle or a class name), a
//! selector (an interned token or the selector's text), and an argument
//! bundle. Each bundle shape is a distinct type, bound at compile time to
//! exactly one trampoline of the foreign catalog; a return-kind-specific send
//! operation marshals the bundle and performs exactly one catalog call.
//!
//! The catalog itself is an injected capability (the [`ObjCRuntime`] trait):
//! verification and tests run against the recording catalog in
//! [`crate::recording`], while the live foreign trampolines are driven by the
//! unverified rim outside this crate.

use vstd::prelude::*;

use crate::appkit::{NSEventSubtype, NSEventType, NSPoint, NSRect};

verus! {

/// An opaque reference to a live object in the foreign runtime, carried as an
/// integer-sized word. The dispatch layer never interprets the word beyond
/// equality and nil checks.
#[derive(Clone, Copy, PartialEq, Eq, Structural, Debug)]
pub struct id(pub u64);

/// The reserved nil object handle.
pub open spec fn spec_nil() -> id {
    id(0u64)
}

/// The reserved nil object handle.
pub fn nil() -> (r: id)
    ensures
        r == spec_nil(),
{
    id(0)
}

impl id {
    /// Whether this handle is the reserved nil sentinel.
    pub fn is_nil(self) -> (r: bool)
        ensures
            r == (self == spec_nil()),
    {
        self.0 == 0
    }
}

/// An opaque interned token naming a runtime method.
#[derive(Clone, Copy, PartialEq, Eq, Structural, Debug)]
pub struct SEL(pub u64);

/// An opaque word standing for the native function pointer registered as a
/// method implementation.
#[derive(Clone, Copy, PartialEq, Eq, Structural, Debug)]
pub struct IMP(pub u64);

/// One marshaled foreign call: the catalog entry it is routed to, named by
/// the variant, together with the receiver, the selector token and the
/// bundle's values in trampoline parameter order.
#[derive(Clone, PartialEq, Debug)]
pub enum MsgCall {
    RetIdNoArgs { receiver: id, selector: SEL },
    RetIdId { receiver: id, selector: SEL, a: id },
    RetIdRect { receiver: id, selector: SEL, a: NSRect },
    RetIdIdSelId { receiver: id, selector: SEL, a: id, b: SEL, c: id },
    RetIdRectUlongUlongBool { receiver: id, selector: SEL, a: NSRect, b: u64, c: u64, d: bool },
    RetIdFiveIds { receiver: id, selector: SEL, a: id, b: id, c: id, d: id, e: id },
    RetIdRectId { receiver: id, selector: SEL, a: NSRect, b: id },
    RetIdWords { receiver: id, selector: SEL, a: Vec<u64> },
    RetIdIdId { receiver: id, selector: SEL, a: id, b: id },
    RetIdUintIdIdBool { receiver: id, selector: SEL, a: u64, b: id, c: id, d: bool },
    RetDoubleNoArgs { receiver: id, selector: SEL },
    RetLongNoArgs { receiver: id, selector: SEL },
    RetVoidNoArgs { receiver: id, selector: SEL },
    RetVoidBool { receiver: id, selector: SEL, a: bool },
    RetVoidId { receiver: id, selector: SEL, a: id },
    RetBoolNoArgs { receiver: id, selector: SEL },
    RetBoolLong { receiver: id, selector: SEL, a: i64 },
    RetPointPoint { receiver: id, selector: SEL, a: NSPoint },
    RetEventNoArgs { receiver: id, selector: SEL },
    RetPointNoArgs { receiver: id, selector: SEL },
    RetPointPointId { receiver: id, selector: SEL, a: NSPoint, b: id },
    RetSubtypeNoArgs { receiver: id, selector: SEL },
    RetStringNoArgs { receiver: id, selector: SEL },
    RetUShortNoArgs { receiver: id, selector: SEL },
    RetUIntNoArgs { receiver: id, selector: SEL },
}

/// One value coming back over the foreign boundary, tagged by return kind.
/// A double travels as its bit pattern; a C string as an opaque pointer word.
#[derive(Clone, Copy, PartialEq, Eq, Structural, Debug)]
pub enum MsgReply {
    Handle(id),
    DoubleBits(u64),
    Long(i64),
    Void,
    Flag(bool),
    Point(NSPoint),
    Event(NSEventType),
    Subtype(NSEventSubtype),
    CString(u64),
    UShort(u16),
    UInt(u64),
}

/// One operation against the foreign class/selector registry.
pub enum RegOp {
    AllocPair { superclass: id, name: Seq<char>, extra_bytes: nat },
    AddMethod { cls: id, sel: SEL, imp: IMP, types: Seq<char> },
    RegisterPair { cls: id },
}

/// The reply a catalog gives next: the head of its scripted reply queue, or a
/// void reply once the queue is exhausted.
pub open spec fn head_reply(pending: Seq<MsgReply>) -> MsgReply {
    if pending.len() > 0 {
        pending[0]
    } else {
        MsgReply::Void
    }
}

/// The reply queue after one catalog call.
pub open spec fn pending_after(pending: Seq<MsgReply>) -> Seq<MsgReply> {
    if pending.len() > 0 {
        pending.drop_first()
    } else {
        pending
    }
}

/// The foreign runtime as seen by the dispatch layer: a trampoline catalog
/// with an observable log of marshaled calls and a scripted reply queue, plus
/// the class/selector registry. Selector interning and class lookup are
/// idempotent and, from this layer's perspective, side-effect-free, so both
/// are read-only here and stable under every operation.
pub trait ObjCRuntime: Sized {
    /// Every marshaled call the catalog has performed, oldest first.
    spec fn calls(&self) -> Seq<MsgCall>;

    /// The replies the catalog will give to coming calls, next first.
    spec fn pending(&self) -> Seq<MsgReply>;

    /// Every registry operation performed, oldest first.
    spec fn registry(&self) -> Seq<RegOp>;

    /// The token the runtime interns for a selector name.
    spec fn sel_token(&self, name: Seq<char>) -> SEL;

    /// The class reference the runtime resolves for a class name.
    spec fn class_ref(&self, name: Seq<char>) -> id;

    /// Interns a selector name, yielding its token.
    fn intern_selector(&self, name: &str) -> (r: SEL)
        ensures
            r == self.sel_token(name@),
    ;

    /// Resolves a class name to its class reference.
    fn lookup_class(&self, name: &str) -> (r: id)
        ensures
            r == self.class_ref(name@),
    ;

    /// Performs one marshaled call against the catalog.
    fn invoke(&mut self, call: MsgCall) -> (r: MsgReply)
        ensures
            final(self).calls() == old(self).calls().push(call),
            final(self).pending() == pending_after(old(self).pending()),
            r == head_reply(old(self).pending()),
            final(self).registry() == old(self).registry(),
            forall|n: Seq<char>| #[trigger] final(self).sel_token(n) == old(self).sel_token(n),
            forall|n: Seq<char>| #[trigger] final(self).class_ref(n) == old(self).class_ref(n),
    ;

    /// Allocates a new class pair under a superclass; the pair is reached
    /// under its name thereafter.
    fn alloc_class_pair(&mut self, superclass: id, name: &str, extra_bytes: usize) -> (r: id)
        ensures
            final(self).registry() == old(self).registry().push(
                (RegOp::AllocPair { superclass, name: name@, extra_bytes: extra_bytes as nat }),
            ),
            r == old(self).class_ref(name@),
            final(self).calls() == old(self).calls(),
            final(self).pending() == old(self).pending(),
            forall|n: Seq<char>| #[trigger] final(self).sel_token(n) == old(self).sel_token(n),
            forall|n: Seq<char>| #[trigger] final(self).class_ref(n) == old(self).class_ref(n),
    ;

    /// Registers a method implementation for a selector on a class. Whether
    /// the runtime accepts it is the runtime's decision.
    fn add_method(&mut self, cls: id, sel: SEL, imp: IMP, types: &str) -> (r: bool)
        ensures
            final(self).registry() == old(self).registry().push(
                (RegOp::AddMethod { cls, sel, imp, types: types@ }),
            ),
            final(self).calls() == old(self).calls(),
            final(self).pending() == old(self).pending(),
            forall|n: Seq<char>| #[trigger] final(self).sel_token(n) == old(self).sel_token(n),
            forall|n: Seq<char>| #[trigger] final(self).class_ref(n) == old(self).class_ref(n),
    ;

    /// Completes registration of an allocated class pair.
    fn register_class_pair(&mut self, cls: id)
        ensures
            final(self).registry() == old(self).registry().push((RegOp::RegisterPair { cls })),
            final(self).calls() == old(self).calls(),
            final(self).pending() == old(self).pending(),
            forall|n: Seq<char>| #[trigger] final(self).sel_token(n) == old(self).sel_token(n),
            forall|n: Seq<char>| #[trigger] final(self).class_ref(n) == old(self).class_ref(n),
    ;
}

/// Interned selector tokens and resolved class references are the same
/// before and after an operation.
pub open spec fn names_stable<R: ObjCRuntime>(pre: R, post: R) -> bool {
    &&& forall|n: Seq<char>| #[trigger] post.sel_token(n) == pre.sel_token(n)
    &&& forall|n: Seq<char>| #[trigger] post.class_ref(n) == pre.class_ref(n)
}

/// Exactly one marshaled call was performed: `call` was appended to the log,
/// one scripted reply was consumed, and nothing else changed.
pub open spec fn sent_one<R: ObjCRuntime>(pre: R, post: R, call: MsgCall) -> bool {
    &&& post.calls() == pre.calls().push(call)
    &&& post.pending() == pending_after(pre.pending())
    &&& post.registry() == pre.registry()
    &&& names_stable(pre, post)
}

/// A convenience to resolve the name of a class to the class reference
/// itself.
pub fn class<R: ObjCRuntime>(rt: &R, name: &str) -> (r: id)
    ensures
        r == rt.class_ref(name@),
{
    rt.lookup_class(name)
}

/// A convenience to resolve the name of a selector to its interned token.
pub fn selector<R: ObjCRuntime>(rt: &R, name: &str) -> (r: SEL)
    ensures
        r == rt.sel_token(name@),
{
    rt.intern_selector(name)
}

/// A selector argument: either the selector's text, interned at send time,
/// or a token interned earlier.
pub trait ObjCSelector: Sized {
    /// Whether this selector is supplied as text.
    spec fn is_text(self) -> bool;

    /// The selector text, where supplied as text.
    spec fn text(self) -> Seq<char>;

    /// The token, where supplied as one.
    spec fn token(self) -> SEL;

    /// Normalizes this selector to a token against the given runtime: text
    /// is interned, a token stands as it is.
    fn as_selector<R: ObjCRuntime>(self, rt: &R) -> (r: SEL)
        ensures
            r == (if self.is_text() {
                rt.sel_token(self.text())
            } else {
                self.token()
            }),
    ;
}

/// The token a selector argument denotes against a runtime: text is interned,
/// a token stands as it is.
pub open spec fn resolved_sel<R: ObjCRuntime, S: ObjCSelector>(rt: R, s: S) -> SEL {
    if s.is_text() {
        rt.sel_token(s.text())
    } else {
        s.token()
    }
}

impl<'a> ObjCSelector for &'a str {
    open spec fn is_text(self) -> bool {
        true
    }

    open spec fn text(self) -> Seq<char> {
        self@
    }

    open spec fn token(self) -> SEL {
        SEL(0u64)
    }

    fn as_selector<R: ObjCRuntime>(self, rt: &R) -> (r: SEL) {
        rt.intern_selector(self)
    }
}

impl ObjCSelector for SEL {
    open spec fn is_text(self) -> bool {
        false
    }

    open spec fn text(self) -> Seq<char> {
        Seq::empty()
    }

    open spec fn token(self) -> SEL {
        self
    }

    fn as_selector<R: ObjCRuntime>(self, rt: &R) -> (r: SEL) {
        self
    }
}


// What each return kind takes from a reply that came back over the
// boundary. A reply of another kind yields the kind's fixed default, so
// every send operation is total whatever the catalog answered.

/// Yields the handle carried by a handle reply; nil for any other kind.
pub open spec fn spec_reply_id(r: MsgReply) -> id {
    match r {
        MsgReply::Handle(h) => h,
        _ => id(0u64),
    }
}

/// Yields the handle carried by a handle reply; nil for any other kind.
pub fn reply_id(r: MsgReply) -> (v: id)
    ensures
        v == spec_reply_id(r),
{
    match r {
        MsgReply::Handle(h) => h,
        _ => id(0),
    }
}

/// Yields the bit pattern carried by a double reply; zero for any other kind.
pub open spec fn spec_reply_double_bits(r: MsgReply) -> u64 {
    match r {
        MsgReply::DoubleBits(b) => b,
        _ => 0u64,
    }
}

/// Yields the bit pattern carried by a double reply; zero for any other kind.
pub fn reply_double_bits(r: MsgReply) -> (v: u64)
    ensures
        v == spec_reply_double_bits(r),
{
    match r {
        MsgReply::DoubleBits(b) => b,
        _ => 0,
    }
}

/// Yields the value carried by a long reply; zero for any other kind.
pub open spec fn spec_reply_long(r: MsgReply) -> i64 {
    match r {
        MsgReply::Long(v) => v,
        _ => 0i64,
    }
}

/// Yields the value carried by a long reply; zero for any other kind.
pub fn reply_long(r: MsgReply) -> (v: i64)
    ensures
        v == spec_reply_long(r),
{
    match r {
        MsgReply::Long(v) => v,
        _ => 0,
    }
}

/// Yields the value carried by a boolean reply; false for any other kind.
pub open spec fn spec_reply_bool(r: MsgReply) -> bool {
    match r {
        MsgReply::Flag(b) => b,
        _ => false,
    }
}

/// Yields the value carried by a boolean reply; false for any other kind.
pub fn reply_bool(r: MsgReply) -> (v: bool)
    ensures
        v == spec_reply_bool(r),
{
    match r {
        MsgReply::Flag(b) => b,
        _ => false,
    }
}

/// Yields the point carried by a point reply; the zero point for any other kind.
pub open spec fn spec_reply_point(r: MsgReply) -> NSPoint {
    match r {
        MsgReply::Point(p) => p,
        _ => (NSPoint { x_bits: 0u64, y_bits: 0u64 }),
    }
}

/// Yields the point carried by a point reply; the zero point for any other kind.
pub fn reply_point(r: MsgReply) -> (v: NSPoint)
    ensures
        v == spec_reply_point(r),
{
    match r {
        MsgReply::Point(p) => p,
        _ => NSPoint { x_bits: 0, y_bits: 0 },
    }
}

/// Yields the kind carried by an event reply; the lowest kind for any other reply.
pub open spec fn spec_reply_event(r: MsgReply) -> NSEventType {
    match r {
        MsgReply::Event(e) => e,
        _ => NSEventType::NSLeftMouseDown,
    }
}

/// Yields the kind carried by an event reply; the lowest kind for any other reply.
pub fn reply_event(r: MsgReply) -> (v: NSEventType)
    ensures
        v == spec_reply_event(r),
{
    match r {
        MsgReply::Event(e) => e,
        _ => NSEventType::NSLeftMouseDown,
    }
}

/// Yields the subtype carried by a subtype reply; the window-exposed subtype for any other reply.
pub open spec fn spec_reply_event_subtype(r: MsgReply) -> NSEventSubtype {
    match r {
        MsgReply::Subtype(s) => s,
        _ => NSEventSubtype::NSWindowExposedEventType,
    }
}

/// Yields the subtype carried by a subtype reply; the window-exposed subtype for any other reply.
pub fn reply_event_subtype(r: MsgReply) -> (v: NSEventSubtype)
    ensures
        v == spec_reply_event_subtype(r),
{
    match r {
        MsgReply::Subtype(s) => s,
        _ => NSEventSubtype::NSWindowExposedEventType,
    }
}

/// Yields the pointer word carried by a C string reply; zero for any other kind.
pub open spec fn spec_reply_string(r: MsgReply) -> u64 {
    match r {
        MsgReply::CString(w) => w,
        _ => 0u64,
    }
}

/// Yields the pointer word carried by a C string reply; zero for any other kind.
pub fn reply_string(r: MsgReply) -> (v: u64)
    ensures
        v == spec_reply_string(r),
{
    match r {
        MsgReply::CString(w) => w,
        _ => 0,
    }
}

/// Yields the value carried by an unsigned-short reply; zero for any other kind.
pub open spec fn spec_reply_ushort(r: MsgReply) -> u16 {
    match r {
        MsgReply::UShort(u) => u,
        _ => 0u16,
    }
}

/// Yields the value carried by an unsigned-short reply; zero for any other kind.
pub fn reply_ushort(r: MsgReply) -> (v: u16)
    ensures
        v == spec_reply_ushort(r),
{
    match r {
        MsgReply::UShort(u) => u,
        _ => 0,
    }
}

/// Yields the value carried by an unsigned-word reply; zero for any other kind.
pub open spec fn spec_reply_ns_uinteger(r: MsgReply) -> u64 {
    match r {
        MsgReply::UInt(u) => u,
        _ => 0u64,
    }
}

/// Yields the value carried by an unsigned-word reply; zero for any other kind.
pub fn reply_ns_uinteger(r: MsgReply) -> (v: u64)
    ensures
        v == spec_reply_ns_uinteger(r),
{
    match r {
        MsgReply::UInt(u) => u,
        _ => 0,
    }
}

/// Argument bundles for object-handle-returning sends. Each bundle shape is bound to
/// exactly one catalog entry, named by `spec_call`.
pub trait ObjCMethodArgs: Sized {
    /// The one marshaled call this bundle shape is bound to.
    spec fn spec_call(self, receiver: id, selector: SEL) -> MsgCall;

    /// Marshals the bundle and performs its one catalog call.
    fn send_args<R: ObjCRuntime>(self, rt: &mut R, receiver: id, selector: SEL) -> (r: id)
        ensures
            sent_one(*old(rt), *final(rt), self.spec_call(receiver, selector)),
            r == spec_reply_id(head_reply(old(rt).pending())),
    ;
}

/// Argument bundles for double-returning sends. Each bundle shape is bound to
/// exactly one catalog entry, named by `spec_double_call`.
pub trait ObjCMethodDoubleArgs: Sized {
    /// The one marshaled call this bundle shape is bound to.
    spec fn spec_double_call(self, receiver: id, selector: SEL) -> MsgCall;

    /// Marshals the bundle and performs its one catalog call.
    fn send_double_args<R: ObjCRuntime>(self, rt: &mut R, receiver: id, selector: SEL) -> (r: u64)
        ensures
            sent_one(*old(rt), *final(rt), self.spec_double_call(receiver, selector)),
            r == spec_reply_double_bits(head_reply(old(rt).pending())),
    ;
}

/// Argument bundles for long-returning sends. Each bundle shape is bound to
/// exactly one catalog entry, named by `spec_long_call`.
pub trait ObjCMethodLongArgs: Sized {
    /// The one marshaled call this bundle shape is bound to.
    spec fn spec_long_call(self, receiver: id, selector: SEL) -> MsgCall;

    /// Marshals the bundle and performs its one catalog call.
    fn send_long_args<R: ObjCRuntime>(self, rt: &mut R, receiver: id, selector: SEL) -> (r: i64)
        ensures
            sent_one(*old(rt), *final(rt), self.spec_long_call(receiver, selector)),
            r == spec_reply_long(head_reply(old(rt).pending())),
    ;
}

/// Argument bundles for void sends. Each bundle shape is bound to
/// exactly one catalog entry, named by `spec_void_call`.
pub trait ObjCMethodVoidArgs: Sized {
    /// The one marshaled call this bundle shape is bound to.
    spec fn spec_void_call(self, receiver: id, selector: SEL) -> MsgCall;

    /// Marshals the bundle and performs its one catalog call.
    fn send_void_args<R: ObjCRuntime>(self, rt: &mut R, receiver: id, selector: SEL)
        ensures
            sent_one(*old(rt), *final(rt), self.spec_void_call(receiver, selector)),
    ;
}

/// Argument bundles for boolean-returning sends. Each bundle shape is bound to
/// exactly one catalog entry, named by `spec_bool_call`.
pub trait ObjCMethodBoolArgs: Sized {
    /// The one marshaled call this bundle shape is bound to.
    spec fn spec_bool_call(self, receiver: id, selector: SEL) -> MsgCall;

    /// Marshals the bundle and performs its one catalog call.
    fn send_bool_args<R: ObjCRuntime>(self, rt: &mut R, receiver: id, selector: SEL) -> (r: bool)
        ensures
            sent_one(*old(rt), *final(rt), self.spec_bool_call(receiver, selector)),
            r == spec_reply_bool(head_reply(old(rt).pending())),
    ;
}

/// Argument bundles for point-returning sends. Each bundle shape is bound to
/// exactly one catalog entry, named by `spec_point_call`.
pub trait ObjCMethodPointArgs: Sized {
    /// The one marshaled call this bundle shape is bound to.
    spec fn spec_point_call(self, receiver: id, selector: SEL) -> MsgCall;

    /// Marshals the bundle and performs its one catalog call.
    fn send_point_args<R: ObjCRuntime>(self, rt: &mut R, receiver: id, selector: SEL) -> (r: NSPoint)
        ensures
            sent_one(*old(rt), *final(rt), self.spec_point_call(receiver, selector)),
            r == spec_reply_point(head_reply(old(rt).pending())),
    ;
}

/// Argument bundles for event-kind-returning sends. Each bundle shape is bound to
/// exactly one catalog entry, named by `spec_event_call`.
pub trait ObjCMethodEventArgs: Sized {
    /// The one marshaled call this bundle shape is bound to.
    spec fn spec_event_call(self, receiver: id, selector: SEL) -> MsgCall;

    /// Marshals the bundle and performs its one catalog call.
    fn send_event_args<R: ObjCRuntime>(self, rt: &mut R, receiver: id, selector: SEL) -> (r: NSEventType)
        ensures
            sent_one(*old(rt), *final(rt), self.spec_event_call(receiver, selector)),
            r == spec_reply_event(head_reply(old(rt).pending())),
    ;
}

/// Argument bundles for event-subtype-returning sends. Each bundle shape is bound to
/// exactly one catalog entry, named by `spec_eventSubtype_call`.
pub trait ObjCMethodEventSubtypeArgs: Sized {
    /// The one marshaled call this bundle shape is bound to.
    spec fn spec_eventSubtype_call(self, receiver: id, selector: SEL) -> MsgCall;

    /// Marshals the bundle and performs its one catalog call.
    fn send_eventSubtype_args<R: ObjCRuntime>(self, rt: &mut R, receiver: id, selector: SEL) -> (r: NSEventSubtype)
        ensures
            sent_one(*old(rt), *final(rt), self.spec_eventSubtype_call(receiver, selector)),
            r == spec_reply_event_subtype(head_reply(old(rt).pending())),
    ;
}

/// Argument bundles for C-string-returning sends. Each bundle shape is bound to
/// exactly one catalog entry, named by `spec_string_call`.
pub trait ObjCMethodStringArgs: Sized {
    /// The one marshaled call this bundle shape is bound to.
    spec fn spec_string_call(self, receiver: id, selector: SEL) -> MsgCall;

    /// Marshals the bundle and performs its one catalog call.
    fn send_string_args<R: ObjCRuntime>(self, rt: &mut R, receiver: id, selector: SEL) -> (r: u64)
        ensures
            sent_one(*old(rt), *final(rt), self.spec_string_call(receiver, selector)),
            r == spec_reply_string(head_reply(old(rt).pending())),
    ;
}

/// Argument bundles for unsigned-short-returning sends. Each bundle shape is bound to
/// exactly one catalog entry, named by `spec_ushort_call`.
pub trait ObjCMethodUShortArgs: Sized {
    /// The one marshaled call this bundle shape is bound to.
    spec fn spec_ushort_call(self, receiver: id, selector: SEL) -> MsgCall;

    /// Marshals the bundle and performs its one catalog call.
    fn send_ushort_args<R: ObjCRuntime>(self, rt: &mut R, receiver: id, selector: SEL) -> (r: u16)
        ensures
            sent_one(*old(rt), *final(rt), self.spec_ushort_call(receiver, selector)),
            r == spec_reply_ushort(head_reply(old(rt).pending())),
    ;
}

/// Argument bundles for unsigned-word-returning sends. Each bundle shape is bound to
/// exactly one catalog entry, named by `spec_NSUInteger_call`.
pub trait ObjCMethodNSUIntegerArgs: Sized {
    /// The one marshaled call this bundle shape is bound to.
    spec fn spec_NSUInteger_call(self, receiver: id, selector: SEL) -> MsgCall;

    /// Marshals the bundle and performs its one catalog call.
    fn send_NSUInteger_args<R: ObjCRuntime>(self, rt: &mut R, receiver: id, selector: SEL) -> (r: u64)
        ensures
            sent_one(*old(rt), *final(rt), self.spec_NSUInteger_call(receiver, selector)),
            r == spec_reply_ns_uinteger(head_reply(old(rt).pending())),
    ;
}

impl ObjCMethodArgs for () {
    open spec fn spec_call(self, receiver: id, selector: SEL) -> MsgCall {
        MsgCall::RetIdNoArgs { receiver, selector }
    }

    fn send_args<R: ObjCRuntime>(self, rt: &mut R, receiver: id, selector: SEL) -> (r: id) {
        reply_id(rt.invoke(MsgCall::RetIdNoArgs { receiver, selector }))
    }
}

impl ObjCMethodArgs for id {
    open spec fn spec_call(self, receiver: id, selector: SEL) -> MsgCall {
        MsgCall::RetIdId { receiver, selector, a: self }
    }

    fn send_args<R: ObjCRuntime>(self, rt: &mut R, receiver: id, selector: SEL) -> (r: id) {
        reply_id(rt.invoke(MsgCall::RetIdId { receiver, selector, a: self }))
    }
}

impl ObjCMethodArgs for NSRect {
    open spec fn spec_call(self, receiver: id, selector: SEL) -> MsgCall {
        MsgCall::RetIdRect { receiver, selector, a: self }
    }

    fn send_args<R: ObjCRuntime>(self, rt: &mut R, receiver: id, selector: SEL) -> (r: id) {
        reply_id(rt.invoke(MsgCall::RetIdRect { receiver, selector, a: self }))
    }
}

impl ObjCMethodArgs for (id, SEL, id) {
    open spec fn spec_call(self, receiver: id, selector: SEL) -> MsgCall {
        MsgCall::RetIdIdSelId { receiver, selector, a: self.0, b: self.1, c: self.2 }
    }

    fn send_args<R: ObjCRuntime>(self, rt: &mut R, receiver: id, selector: SEL) -> (r: id) {
        let (a, b, c) = self;
        reply_id(rt.invoke(MsgCall::RetIdIdSelId { receiver, selector, a, b, c }))
    }
}

impl ObjCMethodArgs for (NSRect, u64, u64, bool) {
    open spec fn spec_call(self, receiver: id, selector: SEL) -> MsgCall {
        MsgCall::RetIdRectUlongUlongBool { receiver, selector, a: self.0, b: self.1, c: self.2, d: self.3 }
    }

    fn send_args<R: ObjCRuntime>(self, rt: &mut R, receiver: id, selector: SEL) -> (r: id) {
        let (a, b, c, d) = self;
        reply_id(rt.invoke(MsgCall::RetIdRectUlongUlongBool { receiver, selector, a, b, c, d }))
    }
}

impl ObjCMethodArgs for (id, id, id, id, id) {
    open spec fn spec_call(self, receiver: id, selector: SEL) -> MsgCall {
        MsgCall::RetIdFiveIds { receiver, selector, a: self.0, b: self.1, c: self.2, d: self.3, e: self.4 }
    }

    fn send_args<R: ObjCRuntime>(self, rt: &mut R, receiver: id, selector: SEL) -> (r: id) {
        let (a, b, c, d, e) = self;
        reply_id(rt.invoke(MsgCall::RetIdFiveIds { receiver, selector, a, b, c, d, e }))
    }
}

impl ObjCMethodArgs for (NSRect, id) {
    open spec fn spec_call(self, receiver: id, selector: SEL) -> MsgCall {
        MsgCall::RetIdRectId { receiver, selector, a: self.0, b: self.1 }
    }

    fn send_args<R: ObjCRuntime>(self, rt: &mut R, receiver: id, selector: SEL) -> (r: id) {
        let (a, b) = self;
        reply_id(rt.invoke(MsgCall::RetIdRectId { receiver, selector, a, b }))
    }
}

impl ObjCMethodArgs for Vec<u64> {
    open spec fn spec_call(self, receiver: id, selector: SEL) -> MsgCall {
        MsgCall::RetIdWords { receiver, selector, a: self }
    }

    fn send_args<R: ObjCRuntime>(self, rt: &mut R, receiver: id, selector: SEL) -> (r: id) {
        reply_id(rt.invoke(MsgCall::RetIdWords { receiver, selector, a: self }))
    }
}

impl ObjCMethodArgs for (id, id) {
    open spec fn spec_call(self, receiver: id, selector: SEL) -> MsgCall {
        MsgCall::RetIdIdId { receiver, selector, a: self.0, b: self.1 }
    }

    fn send_args<R: ObjCRuntime>(self, rt: &mut R, receiver: id, selector: SEL) -> (r: id) {
        let (a, b) = self;
        reply_id(rt.invoke(MsgCall::RetIdIdId { receiver, selector, a, b }))
    }
}

impl ObjCMethodArgs for (u64, id, id, bool) {
    open spec fn spec_call(self, receiver: id, selector: SEL) -> MsgCall {
        MsgCall::RetIdUintIdIdBool { receiver, selector, a: self.0, b: self.1, c: self.2, d: self.3 }
    }

    fn send_args<R: ObjCRuntime>(self, rt: &mut R, receiver: id, selector: SEL) -> (r: id) {
        let (a, b, c, d) = self;
        reply_id(rt.invoke(MsgCall::RetIdUintIdIdBool { receiver, selector, a, b, c, d }))
    }
}

impl ObjCMethodDoubleArgs for () {
    open spec fn spec_double_call(self, receiver: id, selector: SEL) -> MsgCall {
        MsgCall::RetDoubleNoArgs { receiver, selector }
    }

    fn send_double_args<R: ObjCRuntime>(self, rt: &mut R, receiver: id, selector: SEL) -> (r: u64) {
        reply_double_bits(rt.invoke(MsgCall::RetDoubleNoArgs { receiver, selector }))
    }
}

impl ObjCMethodLongArgs for () {
    open spec fn spec_long_call(self, receiver: id, selector: SEL) -> MsgCall {
        MsgCall::RetLongNoArgs { receiver, selector }
    }

    fn send_long_args<R: ObjCRuntime>(self, rt: &mut R, receiver: id, selector: SEL) -> (r: i64) {
        reply_long(rt.invoke(MsgCall::RetLongNoArgs { receiver, selector }))
    }
}

impl ObjCMethodVoidArgs for () {
    open spec fn spec_void_call(self, receiver: id, selector: SEL) -> MsgCall {
        MsgCall::RetVoidNoArgs { receiver, selector }
    }

    fn send_void_args<R: ObjCRuntime>(self, rt: &mut R, receiver: id, selector: SEL) {
        let _ = rt.invoke(MsgCall::RetVoidNoArgs { receiver, selector });
    }
}

impl ObjCMethodVoidArgs for bool {
    open spec fn spec_void_call(self, receiver: id, selector: SEL) -> MsgCall {
        MsgCall::RetVoidBool { receiver, selector, a: self }
    }

    fn send_void_args<R: ObjCRuntime>(self, rt: &mut R, receiver: id, selector: SEL) {
        let _ = rt.invoke(MsgCall::RetVoidBool { receiver, selector, a: self });
    }
}

impl ObjCMethodVoidArgs for id {
    open spec fn spec_void_call(self, receiver: id, selector: SEL) -> MsgCall {
        MsgCall::RetVoidId { receiver, selector, a: self }
    }

    fn send_void_args<R: ObjCRuntime>(self, rt: &mut R, receiver: id, selector: SEL) {
        let _ = rt.invoke(MsgCall::RetVoidId { receiver, selector, a: self });
    }
}

impl ObjCMethodBoolArgs for () {
    open spec fn spec_bool_call(self, receiver: id, selector: SEL) -> MsgCall {
        MsgCall::RetBoolNoArgs { receiver, selector }
    }

    fn send_bool_args<R: ObjCRuntime>(self, rt: &mut R, receiver: id, selector: SEL) -> (r: bool) {
        reply_bool(rt.invoke(MsgCall::RetBoolNoArgs { receiver, selector }))
    }
}

impl ObjCMethodBoolArgs for i64 {
    open spec fn spec_bool_call(self, receiver: id, selector: SEL) -> MsgCall {
        MsgCall::RetBoolLong { receiver, selector, a: self }
    }

    fn send_bool_args<R: ObjCRuntime>(self, rt: &mut R, receiver: id, selector: SEL) -> (r: bool) {
        reply_bool(rt.invoke(MsgCall::RetBoolLong { receiver, selector, a: self }))
    }
}

impl ObjCMethodPointArgs for NSPoint {
    open spec fn spec_point_call(self, receiver: id, selector: SEL) -> MsgCall {
        MsgCall::RetPointPoint { receiver, selector, a: self }
    }

    fn send_point_args<R: ObjCRuntime>(self, rt: &mut R, receiver: id, selector: SEL) -> (r: NSPoint) {
        reply_point(rt.invoke(MsgCall::RetPointPoint { receiver, selector, a: self }))
    }
}

impl ObjCMethodPointArgs for () {
    open spec fn spec_point_call(self, receiver: id, selector: SEL) -> MsgCall {
        MsgCall::RetPointNoArgs { receiver, selector }
    }

    fn send_point_args<R: ObjCRuntime>(self, rt: &mut R, receiver: id, selector: SEL) -> (r: NSPoint) {
        reply_point(rt.invoke(MsgCall::RetPointNoArgs { receiver, selector }))
    }
}

impl ObjCMethodPointArgs for (NSPoint, id) {
    open spec fn spec_point_call(self, receiver: id, selector: SEL) -> MsgCall {
        MsgCall::RetPointPointId { receiver, selector, a: self.0, b: self.1 }
    }

    fn send_point_args<R: ObjCRuntime>(self, rt: &mut R, receiver: id, selector: SEL) -> (r: NSPoint) {
        let (a, b) = self;
        reply_point(rt.invoke(MsgCall::RetPointPointId { receiver, selector, a, b }))
    }
}

impl ObjCMethodEventArgs for () {
    open spec fn spec_event_call(self, receiver: id, selector: SEL) -> MsgCall {
        MsgCall::RetEventNoArgs { receiver, selector }
    }

    fn send_event_args<R: ObjCRuntime>(self, rt: &mut R, receiver: id, selector: SEL) -> (r: NSEventType) {
        reply_event(rt.invoke(MsgCall::RetEventNoArgs { receiver, selector }))
    }
}

impl ObjCMethodEventSubtypeArgs for () {
    open spec fn spec_eventSubtype_call(self, receiver: id, selector: SEL) -> MsgCall {
        MsgCall::RetSubtypeNoArgs { receiver, selector }
    }

    fn send_eventSubtype_args<R: ObjCRuntime>(self, rt: &mut R, receiver: id, selector: SEL) -> (r: NSEventSubtype) {
        reply_event_subtype(rt.invoke(MsgCall::RetSubtypeNoArgs { receiver, selector }))
    }
}

impl ObjCMethodStringArgs for () {
    open spec fn spec_string_call(self, receiver: id, selector: SEL) -> MsgCall {
        MsgCall::RetStringNoArgs { receiver, selector }
    }

    fn send_string_args<R: ObjCRuntime>(self, rt: &mut R, receiver: id, selector: SEL) -> (r: u64) {
        reply_string(rt.invoke(MsgCall::RetStringNoArgs { receiver, selector }))
    }
}

impl ObjCMethodUShortArgs for () {
    open spec fn spec_ushort_call(self, receiver: id, selector: SEL) -> MsgCall {
        MsgCall::RetUShortNoArgs { receiver, selector }
    }

    fn send_ushort_args<R: ObjCRuntime>(self, rt: &mut R, receiver: id, selector: SEL) -> (r: u16) {
        reply_ushort(rt.invoke(MsgCall::RetUShortNoArgs { receiver, selector }))
    }
}

impl ObjCMethodNSUIntegerArgs for () {
    open spec fn spec_NSUInteger_call(self, receiver: id, selector: SEL) -> MsgCall {
        MsgCall::RetUIntNoArgs { receiver, selector }
    }

    fn send_NSUInteger_args<R: ObjCRuntime>(self, rt: &mut R, receiver: id, selector: SEL) -> (r: u64) {
        reply_ns_uinteger(rt.invoke(MsgCall::RetUIntNoArgs { receiver, selector }))
    }
}

/// A receiver of message sends: an object handle, or a class name resolved
/// to its class reference at send time. Each send operation performs exactly
/// one catalog call; the bundle's type picks the catalog entry, the
/// operation names the return kind.
pub trait ObjCMethodCall: Sized {
    /// Whether this receiver is a class name.
    spec fn is_name(self) -> bool;

    /// The class name, for a name receiver.
    spec fn name(self) -> Seq<char>;

    /// The handle, for a handle receiver.
    spec fn handle(self) -> id;

    /// Sends expecting an object handle.
    fn send<R: ObjCRuntime, S: ObjCSelector, A: ObjCMethodArgs>(self, rt: &mut R, selector: S, args: A) -> (r: id)
        ensures
            sent_one(
                *old(rt),
                *final(rt),
                args.spec_call(
                    if self.is_name() {
                        old(rt).class_ref(self.name())
                    } else {
                        self.handle()
                    },
                    resolved_sel(*old(rt), selector),
                ),
            ),
            r == spec_reply_id(head_reply(old(rt).pending())),
    ;
    /// Sends expecting a double, as its bit pattern.
    fn send_double<R: ObjCRuntime, S: ObjCSelector, A: ObjCMethodDoubleArgs>(self, rt: &mut R, selector: S, args: A) -> (r: u64)
        ensures
            sent_one(
                *old(rt),
                *final(rt),
                args.spec_double_call(
                    if self.is_name() {
                        old(rt).class_ref(self.name())
                    } else {
                        self.handle()
                    },
                    resolved_sel(*old(rt), selector),
                ),
            ),
            r == spec_reply_double_bits(head_reply(old(rt).pending())),
    ;
    /// Sends expecting a long integer.
    fn send_long<R: ObjCRuntime, S: ObjCSelector, A: ObjCMethodLongArgs>(self, rt: &mut R, selector: S, args: A) -> (r: i64)
        ensures
            sent_one(
                *old(rt),
                *final(rt),
                args.spec_long_call(
                    if self.is_name() {
                        old(rt).class_ref(self.name())
                    } else {
                        self.handle()
                    },
                    resolved_sel(*old(rt), selector),
                ),
            ),
            r == spec_reply_long(head_reply(old(rt).pending())),
    ;
    /// Sends expecting nothing.
    fn send_void<R: ObjCRuntime, S: ObjCSelector, A: ObjCMethodVoidArgs>(self, rt: &mut R, selector: S, args: A)
        ensures
            sent_one(
                *old(rt),
                *final(rt),
                args.spec_void_call(
                    if self.is_name() {
                        old(rt).class_ref(self.name())
                    } else {
                        self.handle()
                    },
                    resolved_sel(*old(rt), selector),
                ),
            ),
    ;
    /// Sends expecting a boolean.
    fn send_bool<R: ObjCRuntime, S: ObjCSelector, A: ObjCMethodBoolArgs>(self, rt: &mut R, selector: S, args: A) -> (r: bool)
        ensures
            sent_one(
                *old(rt),
                *final(rt),
                args.spec_bool_call(
                    if self.is_name() {
                        old(rt).class_ref(self.name())
                    } else {
                        self.handle()
                    },
                    resolved_sel(*old(rt), selector),
                ),
            ),
            r == spec_reply_bool(head_reply(old(rt).pending())),
    ;
    /// Sends expecting a point.
    fn send_point<R: ObjCRuntime, S: ObjCSelector, A: ObjCMethodPointArgs>(self, rt: &mut R, selector: S, args: A) -> (r: NSPoint)
        ensures
            sent_one(
                *old(rt),
                *final(rt),
                args.spec_point_call(
                    if self.is_name() {
                        old(rt).class_ref(self.name())
                    } else {
                        self.handle()
                    },
                    resolved_sel(*old(rt), selector),
                ),
            ),
            r == spec_reply_point(head_reply(old(rt).pending())),
    ;
    /// Sends expecting an event kind.
    fn send_event<R: ObjCRuntime, S: ObjCSelector, A: ObjCMethodEventArgs>(self, rt: &mut R, selector: S, args: A) -> (r: NSEventType)
        ensures
            sent_one(
                *old(rt),
                *final(rt),
                args.spec_event_call(
                    if self.is_name() {
                        old(rt).class_ref(self.name())
                    } else {
                        self.handle()
                    },
                    resolved_sel(*old(rt), selector),
                ),
            ),
            r == spec_reply_event(head_reply(old(rt).pending())),
    ;
    /// Sends expecting an event subtype.
    fn send_eventSubtype<R: ObjCRuntime, S: ObjCSelector, A: ObjCMethodEventSubtypeArgs>(self, rt: &mut R, selector: S, args: A) -> (r: NSEventSubtype)
        ensures
            sent_one(
                *old(rt),
                *final(rt),
                args.spec_eventSubtype_call(
                    if self.is_name() {
                        old(rt).class_ref(self.name())
                    } else {
                        self.handle()
                    },
                    resolved_sel(*old(rt), selector),
                ),
            ),
            r == spec_reply_event_subtype(head_reply(old(rt).pending())),
    ;
    /// Sends expecting a C string, as an opaque pointer word.
    fn send_string<R: ObjCRuntime, S: ObjCSelector, A: ObjCMethodStringArgs>(self, rt: &mut R, selector: S, args: A) -> (r: u64)
        ensures
            sent_one(
                *old(rt),
                *final(rt),
                args.spec_string_call(
                    if self.is_name() {
                        old(rt).class_ref(self.name())
                    } else {
                        self.handle()
                    },
                    resolved_sel(*old(rt), selector),
                ),
            ),
            r == spec_reply_string(head_reply(old(rt).pending())),
    ;
    /// Sends expecting an unsigned short.
    fn send_ushort<R: ObjCRuntime, S: ObjCSelector, A: ObjCMethodUShortArgs>(self, rt: &mut R, selector: S, args: A) -> (r: u16)
        ensures
            sent_one(
                *old(rt),
                *final(rt),
                args.spec_ushort_call(
                    if self.is_name() {
                        old(rt).class_ref(self.name())
                    } else {
                        self.handle()
                    },
                    resolved_sel(*old(rt), selector),
                ),
            ),
            r == spec_reply_ushort(head_reply(old(rt).pending())),
    ;
    /// Sends expecting an unsigned word.
    fn send_NSUInteger<R: ObjCRuntime, S: ObjCSelector, A: ObjCMethodNSUIntegerArgs>(self, rt: &mut R, selector: S, args: A) -> (r: u64)
        ensures
            sent_one(
                *old(rt),
                *final(rt),
                args.spec_NSUInteger_call(
                    if self.is_name() {
                        old(rt).class_ref(self.name())
                    } else {
                        self.handle()
                    },
                    resolved_sel(*old(rt), selector),
                ),
            ),
            r == spec_reply_ns_uinteger(head_reply(old(rt).pending())),
    ;
}

impl ObjCMethodCall for id {
    open spec fn is_name(self) -> bool {
        false
    }

    open spec fn name(self) -> Seq<char> {
        Seq::empty()
    }

    open spec fn handle(self) -> id {
        self
    }

    fn send<R: ObjCRuntime, S: ObjCSelector, A: ObjCMethodArgs>(self, rt: &mut R, selector: S, args: A) -> (r: id) {
        let sel = selector.as_selector(rt);
        args.send_args(rt, self, sel)
    }
    fn send_double<R: ObjCRuntime, S: ObjCSelector, A: ObjCMethodDoubleArgs>(self, rt: &mut R, selector: S, args: A) -> (r: u64) {
        let sel = selector.as_selector(rt);
        args.send_double_args(rt, self, sel)
    }
    fn send_long<R: ObjCRuntime, S: ObjCSelector, A: ObjCMethodLongArgs>(self, rt: &mut R, selector: S, args: A) -> (r: i64) {
        let sel = selector.as_selector(rt);
        args.send_long_args(rt, self, sel)
    }
    fn send_void<R: ObjCRuntime, S: ObjCSelector, A: ObjCMethodVoidArgs>(self, rt: &mut R, selector: S, args: A) {
        let sel = selector.as_selector(rt);
        args.send_void_args(rt, self, sel)
    }
    fn send_bool<R: ObjCRuntime, S: ObjCSelector, A: ObjCMethodBoolArgs>(self, rt: &mut R, selector: S, args: A) -> (r: bool) {
        let sel = selector.as_selector(rt);
        args.send_bool_args(rt, self, sel)
    }
    fn send_point<R: ObjCRuntime, S: ObjCSelector, A: ObjCMethodPointArgs>(self, rt: &mut R, selector: S, args: A) -> (r: NSPoint) {
        let sel = selector.as_selector(rt);
        args.send_point_args(rt, self, sel)
    }
    fn send_event<R: ObjCRuntime, S: ObjCSelector, A: ObjCMethodEventArgs>(self, rt: &mut R, selector: S, args: A) -> (r: NSEventType) {
        let sel = selector.as_selector(rt);
        args.send_event_args(rt, self, sel)
    }
    fn send_eventSubtype<R: ObjCRuntime, S: ObjCSelector, A: ObjCMethodEventSubtypeArgs>(self, rt: &mut R, selector: S, args: A) -> (r: NSEventSubtype) {
        let sel = selector.as_selector(rt);
        args.send_eventSubtype_args(rt, self, sel)
    }
    fn send_string<R: ObjCRuntime, S: ObjCSelector, A: ObjCMethodStringArgs>(self, rt: &mut R, selector: S, args: A) -> (r: u64) {
        let sel = selector.as_selector(rt);
        args.send_string_args(rt, self, sel)
    }
    fn send_ushort<R: ObjCRuntime, S: ObjCSelector, A: ObjCMethodUShortArgs>(self, rt: &mut R, selector: S, args: A) -> (r: u16) {
        let sel = selector.as_selector(rt);
        args.send_ushort_args(rt, self, sel)
    }
    fn send_NSUInteger<R: ObjCRuntime, S: ObjCSelector, A: ObjCMethodNSUIntegerArgs>(self, rt: &mut R, selector: S, args: A) -> (r: u64) {
        let sel = selector.as_selector(rt);
        args.send_NSUInteger_args(rt, self, sel)
    }
}

/// A class name used directly as a receiver: it is resolved through the
/// runtime's registry when the send is made.
impl<'a> ObjCMethodCall for &'a str {
    open spec fn is_name(self) -> bool {
        true
    }

    open spec fn name(self) -> Seq<char> {
        self@
    }

    open spec fn handle(self) -> id {
        spec_nil()
    }

    fn send<R: ObjCRuntime, S: ObjCSelector, A: ObjCMethodArgs>(self, rt: &mut R, selector: S, args: A) -> (r: id) {
        let recv = rt.lookup_class(self);
        let sel = selector.as_selector(rt);
        args.send_args(rt, recv, sel)
    }
    fn send_double<R: ObjCRuntime, S: ObjCSelector, A: ObjCMethodDoubleArgs>(self, rt: &mut R, selector: S, args: A) -> (r: u64) {
        let recv = rt.lookup_class(self);
        let sel = selector.as_selector(rt);
        args.send_double_args(rt, recv, sel)
    }
    fn send_long<R: ObjCRuntime, S: ObjCSelector, A: ObjCMethodLongArgs>(self, rt: &mut R, selector: S, args: A) -> (r: i64) {
        let recv = rt.lookup_class(self);
        let sel = selector.as_selector(rt);
        args.send_long_args(rt, recv, sel)
    }
    fn send_void<R: ObjCRuntime, S: ObjCSelector, A: ObjCMethodVoidArgs>(self, rt: &mut R, selector: S, args: A) {
        let recv = rt.lookup_class(self);
        let sel = selector.as_selector(rt);
        args.send_void_args(rt, recv, sel)
    }
    fn send_bool<R: ObjCRuntime, S: ObjCSelector, A: ObjCMethodBoolArgs>(self, rt: &mut R, selector: S, args: A) -> (r: bool) {
        let recv = rt.lookup_class(self);
        let sel = selector.as_selector(rt);
        args.send_bool_args(rt, recv, sel)
    }
    fn send_point<R: ObjCRuntime, S: ObjCSelector, A: ObjCMethodPointArgs>(self, rt: &mut R, selector: S, args: A) -> (r: NSPoint) {
        let recv = rt.lookup_class(self);
        let sel = selector.as_selector(rt);
        args.send_point_args(rt, recv, sel)
    }
    fn send_event<R: ObjCRuntime, S: ObjCSelector, A: ObjCMethodEventArgs>(self, rt: &mut R, selector: S, args: A) -> (r: NSEventType) {
        let recv = rt.lookup_class(self);
        let sel = selector.as_selector(rt);
        args.send_event_args(rt, recv, sel)
    }
    fn send_eventSubtype<R: ObjCRuntime, S: ObjCSelector, A: ObjCMethodEventSubtypeArgs>(self, rt: &mut R, selector: S, args: A) -> (r: NSEventSubtype) {
        let recv = rt.lookup_class(self);
        let sel = selector.as_selector(rt);
        args.send_eventSubtype_args(rt, recv, sel)
    }
    fn send_string<R: ObjCRuntime, S: ObjCSelector, A: ObjCMethodStringArgs>(self, rt: &mut R, selector: S, args: A) -> (r: u64) {
        let recv = rt.lookup_class(self);
        let sel = selector.as_selector(rt);
        args.send_string_args(rt, recv, sel)
    }
    fn send_ushort<R: ObjCRuntime, S: ObjCSelector, A: ObjCMethodUShortArgs>(self, rt: &mut R, selector: S, args: A) -> (r: u16) {
        let recv = rt.lookup_class(self);
        let sel = selector.as_selector(rt);
        args.send_ushort_args(rt, recv, sel)
    }
    fn send_NSUInteger<R: ObjCRuntime, S: ObjCSelector, A: ObjCMethodNSUIntegerArgs>(self, rt: &mut R, selector: S, args: A) -> (r: u64) {
        let recv = rt.lookup_class(self);
        let sel = selector.as_selector(rt);
        args.send_NSUInteger_args(rt, recv, sel)
    }
}


/// The receiver handle a send resolves against a runtime: a class name goes
/// through the registry, a handle stands as it is.
pub open spec fn receiver_of<R: ObjCRuntime, T: ObjCMethodCall>(rt: R, t: T) -> id {
    if t.is_name() {
        rt.class_ref(t.name())
    } else {
        t.handle()
    }
}

/// Dispatch performs exactly one foreign call: after a send, the call log
/// has grown by the bundle's one marshaled call, everything logged earlier
/// stands unchanged, and no registry operation was slipped in.
pub proof fn lemma_send_appends_one_call<R: ObjCRuntime>(pre: R, post: R, call: MsgCall)
    requires
        sent_one(pre, post, call),
    ensures
        post.calls().len() == pre.calls().len() + 1,
        post.calls().last() == call,
        forall|i: int| 0 <= i < pre.calls().len() ==> post.calls()[i] == pre.calls()[i],
        post.registry() == pre.registry(),
{
}

/// Round trip: a class name used directly as a receiver resolves to the
/// very class reference the runtime returns for that name, so a send
/// through the name and a send through the looked-up reference marshal the
/// same foreign call.
pub proof fn lemma_name_and_reference_receivers_agree<R: ObjCRuntime, A: ObjCMethodArgs>(
    rt: R,
    name: &str,
    h: id,
    sel: SEL,
    args: A,
)
    requires
        h == rt.class_ref(name@),
    ensures
        receiver_of(rt, name) == receiver_of(rt, h),
        args.spec_call(receiver_of(rt, name), sel) == args.spec_call(receiver_of(rt, h), sel),
{
}

/// Interning is idempotent: the token interned for a name, handed back as a
/// selector argument, resolves to exactly the token the text itself
/// resolves to, so a send with either reaches the same trampoline with the
/// same values.
pub proof fn lemma_interning_idempotent<R: ObjCRuntime>(rt: R, name: &str)
    ensures
        resolved_sel(rt, rt.sel_token(name@)) == resolved_sel(rt, name),
        resolved_sel(rt, name) == rt.sel_token(name@),
{
}

/// Handle equality is equality of the opaque words, so the nil handle
/// compares equal exactly to the reserved zero sentinel and to nothing
/// else; nil carries no further meaning for the dispatch layer and stands
/// wherever a handle does.
pub proof fn lemma_nil_equality(a: id, b: id)
    ensures
        (a == b) <==> (a.0 == b.0),
        (a == spec_nil()) <==> (a.0 == 0),
        a == spec_nil() && b == spec_nil() ==> a == b,
{
}


/// The shape table is total and unambiguous: every argument-bundle type of
/// every return kind marshals to its own catalog entry, whatever the
/// receiver, the selector and the values, so no bundle shape lacks a
/// trampoline and no two shapes share one.
pub proof fn lemma_shape_table_total(
    receiver: id,
    selector: SEL,
    h: id,
    h2: id,
    h3: id,
    h4: id,
    h5: id,
    s: SEL,
    r: NSRect,
    p: NSPoint,
    w: u64,
    w2: u64,
    b: bool,
    v: i64,
    words: Vec<u64>,
)
    ensures
        ().spec_call(receiver, selector) is RetIdNoArgs,
        h.spec_call(receiver, selector) is RetIdId,
        r.spec_call(receiver, selector) is RetIdRect,
        (h, s, h2).spec_call(receiver, selector) is RetIdIdSelId,
        (r, w, w2, b).spec_call(receiver, selector) is RetIdRectUlongUlongBool,
        (h, h2, h3, h4, h5).spec_call(receiver, selector) is RetIdFiveIds,
        (r, h).spec_call(receiver, selector) is RetIdRectId,
        words.spec_call(receiver, selector) is RetIdWords,
        (h, h2).spec_call(receiver, selector) is RetIdIdId,
        (w, h, h2, b).spec_call(receiver, selector) is RetIdUintIdIdBool,
        ().spec_double_call(receiver, selector) is RetDoubleNoArgs,
        ().spec_long_call(receiver, selector) is RetLongNoArgs,
        ().spec_void_call(receiver, selector) is RetVoidNoArgs,
        b.spec_void_call(receiver, selector) is RetVoidBool,
        h.spec_void_call(receiver, selector) is RetVoidId,
        ().spec_bool_call(receiver, selector) is RetBoolNoArgs,
        v.spec_bool_call(receiver, selector) is RetBoolLong,
        p.spec_point_call(receiver, selector) is RetPointPoint,
        ().spec_point_call(receiver, selector) is RetPointNoArgs,
        (p, h).spec_point_call(receiver, selector) is RetPointPointId,
        ().spec_event_call(receiver, selector) is RetEventNoArgs,
        ().spec_eventSubtype_call(receiver, selector) is RetSubtypeNoArgs,
        ().spec_string_call(receiver, selector) is RetStringNoArgs,
        ().spec_ushort_call(receiver, selector) is RetUShortNoArgs,
        ().spec_NSUInteger_call(receiver, selector) is RetUIntNoArgs,
{
}

} // verus!
