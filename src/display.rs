use vstd::prelude::*;

use std::sync::Arc;

use crate::BCMHostHandle;

verus! {

/// A rectangle in display coordinates.
#[derive(Debug, Clone, Copy, PartialEq, Eq, Structural)]
pub struct Rect {
    pub x: i32,
    pub y: i32,
    pub width: i32,
    pub height: i32,
}

/// An open display connection. The caller closes the native handle once
/// the last owner of the connection is gone.
#[derive(Debug)]
pub struct DisplayHandle {
    bcm_host_handle: BCMHostHandle,
    display_id: DisplayID,
    raw_display: u32,
}

impl DisplayHandle {
    /// The native handle of the connection.
    pub closed spec fn raw(&self) -> u32 {
        self.raw_display
    }

    /// The native handle of the connection.
    pub fn raw_display(&self) -> (r: u32)
        ensures
            r == self.raw(),
    {
        self.raw_display
    }
}

/// An output of the compositor.
#[derive(Debug, Clone, Copy, PartialEq, Eq, Structural)]
pub enum DisplayID {
    MainLCD,
    AuxLCD,
    HDMI,
    SDTV,
    ForceLCD,
    ForceTV,
    ForceOther,
}

/// The compositor's device number for each output.
pub open spec fn display_id_value(id: DisplayID) -> u32 {
    match id {
        DisplayID::MainLCD => 0,
        DisplayID::AuxLCD => 1,
        DisplayID::HDMI => 2,
        DisplayID::SDTV => 3,
        DisplayID::ForceLCD => 4,
        DisplayID::ForceTV => 5,
        DisplayID::ForceOther => 6,
    }
}

impl DisplayID {
    /// The compositor's device number for this output.
    pub fn value(self) -> (r: u32)
        ensures
            r == display_id_value(self),
    {
        match self {
            DisplayID::MainLCD => 0,
            DisplayID::AuxLCD => 1,
            DisplayID::HDMI => 2,
            DisplayID::SDTV => 3,
            DisplayID::ForceLCD => 4,
            DisplayID::ForceTV => 5,
            DisplayID::ForceOther => 6,
        }
    }
}

/// An open display, sharing its connection with every element placed on it.
#[derive(Debug)]
pub struct Display {
    display_handle: Arc<DisplayHandle>,
}

impl Display {
    #[verifier::type_invariant]
    spec fn inv(&self) -> bool {
        self.display_handle.raw_display != 0
    }

    /// The native handle of the display's connection.
    pub closed spec fn raw(&self) -> u32 {
        self.display_handle.raw_display
    }

    /// The output the display was opened on.
    pub closed spec fn id(&self) -> DisplayID {
        self.display_handle.display_id
    }

    /// Opens the display `display_id` with `open`, which is handed the
    /// output's device number and returns the native handle, zero on failure.
    pub(crate) fn new<F: FnOnce(u32) -> u32>(
        bcm_host_handle: &BCMHostHandle,
        display_id: DisplayID,
        open: F,
    ) -> (r: Result<Display, ()>)
        requires
            open.requires((display_id_value(display_id),)),
        ensures
            exists|raw: u32|
                open.ensures((display_id_value(display_id),), raw)
                && (r is Ok <==> raw != 0)
                && (r is Ok ==> r->Ok_0.raw() == raw && r->Ok_0.id() == display_id),
    {
        let raw_display = open(display_id.value());
        if raw_display == 0 {
            Err(())
        } else {
            let display_handle = DisplayHandle {
                bcm_host_handle: bcm_host_handle.clone(),
                display_id,
                raw_display,
            };
            Ok(Display { display_handle: Arc::new(display_handle) })
        }
    }

    /// The current mode of the display, read by `query`, which is handed the
    /// native handle and returns whether the query succeeded and the mode it
    /// read; `Err` when it did not succeed.
    pub fn info<T, F: FnOnce(u32) -> (bool, T)>(&self, query: F) -> (r: Result<T, ()>)
        requires
            query.requires((self.raw(),)),
        ensures
            exists|ok: bool, mode: T|
                query.ensures((self.raw(),), (ok, mode))
                && r == (if ok { Ok::<T, ()>(mode) } else { Err(()) }),
    {
        let (ok, mode_info) = query(self.raw_display());
        if ok {
            Ok(mode_info)
        } else {
            Err(())
        }
    }

    /// The native handle; it stays owned by this display and must not be closed.
    pub fn raw_display(&self) -> (r: u32)
        ensures
            r == self.raw(),
            r != 0,
    {
        proof {
            use_type_invariant(self);
        }
        self.display_handle.raw_display
    }

    /// The shared connection.
    pub fn display_handle(&self) -> (r: &Arc<DisplayHandle>)
        ensures
            r.raw() == self.raw(),
    {
        &self.display_handle
    }
}

/// Content protection requested for an element.
#[derive(Debug, Clone, Copy, PartialEq, Eq, Structural)]
pub enum Protection {
    Max,
    Unprotected,
    HDCP,
}

/// The compositor's value for each protection level.
pub open spec fn protection_value(p: Protection) -> u32 {
    match p {
        Protection::Max => 15,
        Protection::Unprotected => 0,
        Protection::HDCP => 11,
    }
}

impl Protection {
    /// The compositor's value for this protection level.
    pub fn value(self) -> (r: u32)
        ensures
            r == protection_value(self),
    {
        match self {
            Protection::Max => 15,
            Protection::Unprotected => 0,
            Protection::HDCP => 11,
        }
    }
}

/// A started compositor update. It is consumed by the one operation that
/// submits it, so it can be used at most once.
#[derive(Debug)]
pub struct UpdateBuilder {
    _bcm_host_handle: BCMHostHandle,
    update_handle: u32,
}

impl UpdateBuilder {
    #[verifier::type_invariant]
    spec fn inv(&self) -> bool {
        self.update_handle != 0
    }

    /// The native handle of the update.
    pub closed spec fn raw(&self) -> u32 {
        self.update_handle
    }

    /// Starts an update at `priority` with `start`, which returns the native
    /// handle of the update, zero on failure.
    pub(crate) fn new<F: FnOnce(i32) -> u32>(
        bcm_host_handle: &BCMHostHandle,
        priority: i32,
        start: F,
    ) -> (r: Result<Self, ()>)
        requires
            start.requires((priority,)),
        ensures
            exists|raw: u32|
                start.ensures((priority,), raw)
                && (r is Ok <==> raw != 0)
                && (r is Ok ==> r->Ok_0.raw() == raw),
    {
        let update_handle = start(priority);
        if update_handle == 0 {
            Err(())
        } else {
            Ok(UpdateBuilder { _bcm_host_handle: bcm_host_handle.clone(), update_handle })
        }
    }

    /// The native handle of the update.
    pub fn raw_update(&self) -> (r: u32)
        ensures
            r == self.raw(),
            r != 0,
    {
        proof {
            use_type_invariant(self);
        }
        self.update_handle
    }

    /// Adds one element to `display` in this update with `add_element`, then submits
    /// the update synchronously with `submit`. `add_element` is handed the update, the
    /// display, the layer, both rectangles and the protection value, and
    /// returns the element's handle, zero on failure; `submit` returns `true`
    /// on failure, and is not called when `add_element` failed. The element keeps the
    /// width and height that `dest_rect` has now.
    pub fn element_add<
        F: FnOnce(u32, u32, i32, Rect, Rect, u32) -> u32,
        G: FnOnce(u32) -> bool,
    >(
        self,
        display: &Display,
        layer: i32,
        dest_rect: &mut Rect,
        src_rect: &mut Rect,
        protection: Protection,
        add_element: F,
        submit: G,
    ) -> (r: Result<Element, ()>)
        requires
            add_element.requires((self.raw(), display.raw(), layer, *old(dest_rect), *old(src_rect),
                protection_value(protection))),
            submit.requires((self.raw(),)),
        ensures
            *final(dest_rect) == *old(dest_rect),
            *final(src_rect) == *old(src_rect),
            exists|element: u32|
                add_element.ensures((self.raw(), display.raw(), layer, *old(dest_rect), *old(src_rect),
                    protection_value(protection)), element)
                && (element == 0 ==> r is Err)
                && (element != 0 ==> exists|submit_failed: bool|
                    submit.ensures((self.raw(),), submit_failed)
                    && (r is Ok <==> !submit_failed))
                && (r is Ok ==> {
                    let e = r->Ok_0;
                    &&& e.raw() == element
                    &&& e.display_raw() == display.raw()
                    &&& e.width() == old(dest_rect).width
                    &&& e.height() == old(dest_rect).height
                    &&& e.calls() == Seq::<NativeCall>::empty()
                }),
    {
        let update_handle = self.raw_update();
        let element_handle = add_element(
            update_handle,
            display.raw_display(),
            layer,
            *dest_rect,
            *src_rect,
            protection.value(),
        );
        if element_handle == 0 {
            return Err(());
        }
        let submit_failed = submit(update_handle);
        if submit_failed {
            Err(())
        } else {
            Ok(Element {
                _display_handle: display.display_handle().clone(),
                element_handle,
                width: dest_rect.width,
                height: dest_rect.height,
                calls: Ghost(Seq::empty()),
            })
        }
    }
}

/// A call into the compositor made on behalf of an element or window.
pub enum NativeCall {
    UpdateStart { priority: i32 },
    ElementChangeAttributes { update: u32, element: u32, change: ElementChange },
    ElementRemove { update: u32, element: u32 },
    UpdateSubmitSync { update: u32 },
}

/// The calls an attribute update `change` of `element` makes, given the
/// handle the update start returned and whether the change call failed.
pub open spec fn change_calls(element: u32, change: ElementChange, update: u32, change_failed: bool) -> Seq<NativeCall> {
    if change.flags == 0 {
        seq![]
    } else if update == 0 {
        seq![NativeCall::UpdateStart { priority: 0 }]
    } else if change_failed {
        seq![
            NativeCall::UpdateStart { priority: 0 },
            NativeCall::ElementChangeAttributes { update, element, change },
        ]
    } else {
        seq![
            NativeCall::UpdateStart { priority: 0 },
            NativeCall::ElementChangeAttributes { update, element, change },
            NativeCall::UpdateSubmitSync { update },
        ]
    }
}

/// Whether an attribute update succeeds, given the handle the update start
/// returned and whether the change and submit calls failed.
pub open spec fn change_succeeds(change: ElementChange, update: u32, change_failed: bool, submit_failed: bool) -> bool {
    change.flags == 0 || (update != 0 && !change_failed && !submit_failed)
}

/// The calls the removal of `element` makes, given the handle the update start
/// returned and whether the remove call failed.
pub open spec fn removal_calls(element: u32, update: u32, remove_failed: bool) -> Seq<NativeCall> {
    if update == 0 {
        seq![NativeCall::UpdateStart { priority: 0 }]
    } else if remove_failed {
        seq![
            NativeCall::UpdateStart { priority: 0 },
            NativeCall::ElementRemove { update, element },
        ]
    } else {
        seq![
            NativeCall::UpdateStart { priority: 0 },
            NativeCall::ElementRemove { update, element },
            NativeCall::UpdateSubmitSync { update },
        ]
    }
}

/// What the calls of an attribute update returned: `update` from `start`,
/// unless nothing changes, `change_failed` from `change`, when the update was
/// started, and `submit_failed` from `submit`, when the change succeeded.
pub open spec fn change_steps<
    S: FnOnce(i32) -> u32,
    C: FnOnce(u32, u32, ElementChange) -> bool,
    U: FnOnce(u32) -> bool,
>(
    start: S,
    change: C,
    submit: U,
    element: u32,
    ch: ElementChange,
    update: u32,
    change_failed: bool,
    submit_failed: bool,
) -> bool {
    &&& ch.flags != 0 ==> start.ensures((0i32,), update)
    &&& ch.flags != 0 && update != 0 ==> change.ensures((update, element, ch), change_failed)
    &&& ch.flags != 0 && update != 0 && !change_failed ==> submit.ensures((update,), submit_failed)
}

/// How the removal of an element ended.
#[derive(Debug, Clone, Copy, PartialEq, Eq, Structural)]
pub enum RemovalOutcome {
    /// The removal update was started, the element removed and the update submitted.
    Removed,
    /// No update could be started.
    StartFailed,
    /// The remove call failed; the update was not submitted.
    RemoveFailed,
    /// The submit of the removal update failed.
    SubmitFailed,
}

/// How a removal ends, given the handle the update start returned and whether
/// the remove and submit calls failed.
pub open spec fn removal_outcome(update: u32, remove_failed: bool, submit_failed: bool) -> RemovalOutcome {
    if update == 0 {
        RemovalOutcome::StartFailed
    } else if remove_failed {
        RemovalOutcome::RemoveFailed
    } else if submit_failed {
        RemovalOutcome::SubmitFailed
    } else {
        RemovalOutcome::Removed
    }
}

/// Removing an element always makes one removal update: it starts exactly one
/// update, removes the element at most once and only in that update, and
/// submits that update at most once, after the removal. When every step
/// succeeds the calls are exactly start, remove, submit. The calls depend on the
/// element's handle alone, not on anything done to the element before.
pub proof fn lemma_removal_is_one_update(element: u32, update: u32, remove_failed: bool)
    ensures
        ({
            let calls = removal_calls(element, update, remove_failed);
            &&& 1 <= calls.len() <= 3
            &&& calls[0] == NativeCall::UpdateStart { priority: 0 }
            &&& forall|i: int| 1 <= i < calls.len() ==> !(calls[i] is UpdateStart)
            &&& calls.len() >= 2 ==> calls[1] == NativeCall::ElementRemove { update, element }
            &&& calls.len() == 3 ==> calls[2] == NativeCall::UpdateSubmitSync { update }
            &&& (update != 0 && !remove_failed) ==> calls == seq![
                NativeCall::UpdateStart { priority: 0 },
                NativeCall::ElementRemove { update, element },
                NativeCall::UpdateSubmitSync { update },
            ]
        }),
{
}

/// An element composited onto a display. It keeps the display's connection
/// alive, and is taken off the compositor by `remove`, which consumes it.
pub struct Element {
    _display_handle: Arc<DisplayHandle>,
    element_handle: u32,
    width: i32,
    height: i32,
    calls: Ghost<Seq<NativeCall>>,
}

impl Element {
    #[verifier::type_invariant]
    spec fn inv(&self) -> bool {
        self.element_handle != 0
    }

    /// The native handle of the element.
    pub closed spec fn raw(&self) -> u32 {
        self.element_handle
    }

    /// The native handle of the display connection the element keeps alive.
    pub closed spec fn display_raw(&self) -> u32 {
        self._display_handle.raw()
    }

    /// The destination width recorded when the element was added.
    pub closed spec fn width(&self) -> i32 {
        self.width
    }

    /// The destination height recorded when the element was added.
    pub closed spec fn height(&self) -> i32 {
        self.height
    }

    /// The compositor calls made on behalf of this element since it was added.
    pub closed spec fn calls(&self) -> Seq<NativeCall> {
        self.calls@
    }

    /// The native handle of the element.
    pub fn raw_element(&self) -> (r: u32)
        ensures
            r == self.raw(),
            r != 0,
    {
        proof {
            use_type_invariant(self);
        }
        self.element_handle
    }

    /// A window over this element, recording the element's handle and the
    /// destination size it was added with. The window now owns the element.
    pub fn into_window(self) -> (r: Window)
        ensures
            r.element_raw() == self.raw(),
            r.width() == self.width(),
            r.height() == self.height(),
            r.display_raw() == self.display_raw(),
            r.calls() == self.calls(),
            r.raw_record() == (RawWindow { element: self.raw(), width: self.width(), height: self.height() }),
    {
        let raw_window = RawWindow {
            element: self.element_handle,
            width: self.width,
            height: self.height,
        };
        Window { element: self, raw_window }
    }

    /// Takes the element off the compositor with an update of its own:
    /// `start` starts it at priority zero and returns its handle, zero on
    /// failure; `remove` removes the element in it and `submit` submits it
    /// synchronously, each returning `true` on failure. The first failing step
    /// ends the removal.
    pub fn remove<S: FnOnce(i32) -> u32, R: FnOnce(u32, u32) -> bool, U: FnOnce(u32) -> bool>(
        self,
        start: S,
        remove: R,
        submit: U,
    ) -> (r: (RemovalOutcome, Ghost<Seq<NativeCall>>))
        requires
            start.requires((0i32,)),
            forall|update: u32| remove.requires((update, self.raw())),
            forall|update: u32| submit.requires((update,)),
        ensures
            exists|update: u32, remove_failed: bool, submit_failed: bool|
                start.ensures((0i32,), update)
                && (update != 0 ==> remove.ensures((update, self.raw()), remove_failed))
                && (update != 0 && !remove_failed ==> submit.ensures((update,), submit_failed))
                && r.1@ == self.calls() + removal_calls(self.raw(), update, remove_failed)
                && r.0 == removal_outcome(update, remove_failed, submit_failed),
    {
        let element = self.raw_element();
        let ghost before = self.calls@;
        let ghost start_fn = start;
        let ghost remove_fn = remove;
        let ghost submit_fn = submit;
        let update_handle = start(0);
        let ghost calls = before.push(NativeCall::UpdateStart { priority: 0 });
        if update_handle == 0 {
            let r = (RemovalOutcome::StartFailed, Ghost(calls));
            assert(calls =~= before + removal_calls(element, update_handle, false));
            assert(start_fn.ensures((0i32,), update_handle)
                && r.1@ == before + removal_calls(element, update_handle, false)
                && r.0 == removal_outcome(update_handle, false, false));
            return r;
        }
        let remove_failed = remove(update_handle, element);
        proof {
            calls = calls.push(NativeCall::ElementRemove { update: update_handle, element });
        }
        if remove_failed {
            let r = (RemovalOutcome::RemoveFailed, Ghost(calls));
            assert(calls =~= before + removal_calls(element, update_handle, true));
            assert(start_fn.ensures((0i32,), update_handle)
                && remove_fn.ensures((update_handle, element), remove_failed)
                && r.1@ == before + removal_calls(element, update_handle, true)
                && r.0 == removal_outcome(update_handle, true, false));
            return r;
        }
        let submit_failed = submit(update_handle);
        proof {
            calls = calls.push(NativeCall::UpdateSubmitSync { update: update_handle });
        }
        assert(calls =~= before + removal_calls(element, update_handle, false));
        let outcome = if submit_failed {
            RemovalOutcome::SubmitFailed
        } else {
            RemovalOutcome::Removed
        };
        assert(start_fn.ensures((0i32,), update_handle)
            && remove_fn.ensures((update_handle, element), remove_failed)
            && submit_fn.ensures((update_handle,), submit_failed)
            && outcome == removal_outcome(update_handle, false, submit_failed));
        (outcome, Ghost(calls))
    }
}

/// Change flag: the layer is set.
pub const CHANGE_LAYER: u32 = 1;
/// Change flag: the opacity is set.
pub const CHANGE_OPACITY: u32 = 2;
/// Change flag: the destination rectangle is set.
pub const CHANGE_DEST_RECT: u32 = 4;
/// Change flag: the source rectangle is set.
pub const CHANGE_SRC_RECT: u32 = 8;

/// The change flags for the attributes that are present.
pub open spec fn change_flags(layer: bool, opacity: bool, dest_rect: bool, src_rect: bool) -> u32 {
    ((if layer { CHANGE_LAYER as int } else { 0 })
        + (if opacity { CHANGE_OPACITY as int } else { 0 })
        + (if dest_rect { CHANGE_DEST_RECT as int } else { 0 })
        + (if src_rect { CHANGE_SRC_RECT as int } else { 0 })) as u32
}

/// The update that sets exactly the attributes that are present; an absent
/// layer or opacity is carried as zero.
pub open spec fn element_change_of(
    layer: Option<i32>,
    opacity: Option<u8>,
    dest_rect: Option<Rect>,
    src_rect: Option<Rect>,
) -> ElementChange {
    ElementChange {
        flags: change_flags(layer is Some, opacity is Some, dest_rect is Some, src_rect is Some),
        layer: match layer { Some(v) => v, Option::None => 0i32 },
        opacity: match opacity { Some(v) => v, Option::None => 0u8 },
        dest_rect,
        src_rect,
    }
}

/// The rectangle an optional reference points to.
pub open spec fn rect_of(r: Option<&Rect>) -> Option<Rect> {
    match r {
        Some(rect) => Some(*rect),
        Option::None => Option::None,
    }
}

/// One attribute update of an element: which attributes change, and their new
/// values. An attribute that does not change carries zero or no rectangle.
#[derive(Debug, Clone, Copy, PartialEq, Eq, Structural)]
pub struct ElementChange {
    pub flags: u32,
    pub layer: i32,
    pub opacity: u8,
    pub dest_rect: Option<Rect>,
    pub src_rect: Option<Rect>,
}

impl ElementChange {
    /// The update that sets exactly the attributes that are present.
    pub fn from_options(
        layer: Option<i32>,
        opacity: Option<u8>,
        dest_rect: Option<Rect>,
        src_rect: Option<Rect>,
    ) -> (r: ElementChange)
        ensures
            r == element_change_of(layer, opacity, dest_rect, src_rect),
    {
        let mut flags: u32 = 0;
        let layer = match layer {
            Some(value) => {
                flags = flags + CHANGE_LAYER;
                value
            },
            Option::None => 0,
        };
        let opacity = match opacity {
            Some(value) => {
                flags = flags + CHANGE_OPACITY;
                value
            },
            Option::None => 0,
        };
        if dest_rect.is_some() {
            flags = flags + CHANGE_DEST_RECT;
        }
        if src_rect.is_some() {
            flags = flags + CHANGE_SRC_RECT;
        }
        ElementChange { flags, layer, opacity, dest_rect, src_rect }
    }

    /// Whether the update changes nothing.
    pub fn is_empty(&self) -> (r: bool)
        ensures
            r == (self.flags == 0),
    {
        self.flags == 0
    }
}

/// The plain window record handed to rendering-surface creation: the
/// element's handle, then its width and height.
#[derive(Debug, Clone, Copy, PartialEq, Eq, Structural)]
pub struct RawWindow {
    pub element: u32,
    pub width: i32,
    pub height: i32,
}

/// A window over an element, for creating a rendering surface on it.
pub struct Window {
    element: Element,
    raw_window: RawWindow,
}

impl Window {
    /// The native handle of the window's element.
    pub closed spec fn element_raw(&self) -> u32 {
        self.element.raw()
    }

    /// The native handle of the display connection the element keeps alive.
    pub closed spec fn display_raw(&self) -> u32 {
        self.element.display_raw()
    }

    /// The window's width.
    pub closed spec fn width(&self) -> i32 {
        self.element.width()
    }

    /// The window's height.
    pub closed spec fn height(&self) -> i32 {
        self.element.height()
    }

    /// The compositor calls made on behalf of the window's element.
    pub closed spec fn calls(&self) -> Seq<NativeCall> {
        self.element.calls()
    }

    /// The window record.
    pub closed spec fn raw_record(&self) -> RawWindow {
        self.raw_window
    }

    /// The window record (element handle, width, height) that surface
    /// creation reads.
    pub fn raw_window(&self) -> (r: RawWindow)
        ensures
            r == self.raw_record(),
    {
        self.raw_window
    }

    /// Changes the attributes that are present, in an update of its own,
    /// stopping at the first step that fails. `start` starts the update at
    /// priority zero and returns its handle, zero on failure; `change` applies
    /// the attribute update to the element in it, and `submit` submits it
    /// synchronously, each returning `true` on failure. With no attribute
    /// present nothing is called and the call succeeds.
    pub fn change_element_attributes<
        S: FnOnce(i32) -> u32,
        C: FnOnce(u32, u32, ElementChange) -> bool,
        U: FnOnce(u32) -> bool,
    >(
        &mut self,
        layer: Option<i32>,
        opacity: Option<u8>,
        dest_rect: Option<&Rect>,
        src_rect: Option<&Rect>,
        start: S,
        change: C,
        submit: U,
    ) -> (r: Result<(), ()>)
        requires
            start.requires((0i32,)),
            forall|update: u32, c: ElementChange| change.requires((update, old(self).element_raw(), c)),
            forall|update: u32| submit.requires((update,)),
        ensures
            ({
                let ch = element_change_of(layer, opacity, rect_of(dest_rect), rect_of(src_rect));
                exists|update: u32, change_failed: bool, submit_failed: bool|
                    change_steps(start, change, submit, old(self).element_raw(), ch, update,
                        change_failed, submit_failed)
                    && final(self).calls() == old(self).calls()
                        + change_calls(old(self).element_raw(), ch, update, change_failed)
                    && (r is Ok <==> change_succeeds(ch, update, change_failed, submit_failed))
            }),
            layer is None && opacity is None && dest_rect is None && src_rect is None
                ==> r is Ok && final(self).calls() == old(self).calls(),
            final(self).element_raw() == old(self).element_raw(),
            final(self).display_raw() == old(self).display_raw(),
            final(self).width() == old(self).width(),
            final(self).height() == old(self).height(),
            final(self).raw_record() == old(self).raw_record(),
    {
        let dest_copy = match dest_rect {
            Some(rect) => Some(*rect),
            Option::None => Option::None,
        };
        let src_copy = match src_rect {
            Some(rect) => Some(*rect),
            Option::None => Option::None,
        };
        let ch = ElementChange::from_options(layer, opacity, dest_copy, src_copy);
        assert(ch == element_change_of(layer, opacity, rect_of(dest_rect), rect_of(src_rect)));
        let element = self.element.raw_element();
        assert(element == old(self).element_raw());
        let ghost before = self.element.calls@;
        if ch.is_empty() {
            assert(change_steps(start, change, submit, element, ch, 0, false, false));
            assert(before + change_calls(element, ch, 0, false) =~= before);
            assert(change_succeeds(ch, 0, false, false));
            assert(self.element.calls@ == before + change_calls(element, ch, 0, false));
            return Ok(());
        }
        let ghost start_fn = start;
        let update_handle = start(0);
        self.element.calls = Ghost(self.element.calls@.push(NativeCall::UpdateStart { priority: 0 }));
        if update_handle == 0 {
            assert(change_steps(start_fn, change, submit, element, ch, update_handle, false, false));
            assert(self.element.calls@ =~= before + change_calls(element, ch, update_handle, false));
            assert(!change_succeeds(ch, update_handle, false, false));
            return Err(());
        }
        let ghost change_fn = change;
        assert(change.requires((update_handle, element, ch)));
        let change_failed = change(update_handle, element, ch);
        self.element.calls = Ghost(self.element.calls@.push(
            NativeCall::ElementChangeAttributes { update: update_handle, element, change: ch },
        ));
        if change_failed {
            assert(change_steps(start_fn, change_fn, submit, element, ch, update_handle, true, false));
            assert(self.element.calls@ =~= before + change_calls(element, ch, update_handle, true));
            assert(!change_succeeds(ch, update_handle, true, false));
            return Err(());
        }
        let ghost submit_fn = submit;
        let submit_failed = submit(update_handle);
        self.element.calls = Ghost(self.element.calls@.push(NativeCall::UpdateSubmitSync { update: update_handle }));
        assert(self.element.calls@ =~= before + change_calls(element, ch, update_handle, false));
        assert(change_steps(start_fn, change_fn, submit_fn, element, ch, update_handle, false, submit_failed));
        assert(change_succeeds(ch, update_handle, false, submit_failed) == !submit_failed);
        if submit_failed {
            Err(())
        } else {
            Ok(())
        }
    }

    /// Takes the window's element off the compositor, as `Element::remove` does.
    pub fn remove<S: FnOnce(i32) -> u32, R: FnOnce(u32, u32) -> bool, U: FnOnce(u32) -> bool>(
        self,
        start: S,
        remove: R,
        submit: U,
    ) -> (r: (RemovalOutcome, Ghost<Seq<NativeCall>>))
        requires
            start.requires((0i32,)),
            forall|update: u32| remove.requires((update, self.element_raw())),
            forall|update: u32| submit.requires((update,)),
        ensures
            exists|update: u32, remove_failed: bool, submit_failed: bool|
                start.ensures((0i32,), update)
                && (update != 0 ==> remove.ensures((update, self.element_raw()), remove_failed))
                && (update != 0 && !remove_failed ==> submit.ensures((update,), submit_failed))
                && r.1@ == self.calls() + removal_calls(self.element_raw(), update, remove_failed)
                && r.0 == removal_outcome(update, remove_failed, submit_failed),
    {
        assert forall|update: u32| remove.requires((update, self.element.raw())) by {
            assert(remove.requires((update, self.element_raw())));
        }
        self.element.remove(start, remove, submit)
    }
}

} // verus!
