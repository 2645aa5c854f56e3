use vstd::prelude::*;

verus! {

/// A fraction `num / den`.
#[derive(Clone, Copy, Debug, PartialEq, Eq, Structural)]
pub struct Scale {
    pub num: i64,
    pub den: i64,
}

/// Orthographic projection of the window: x in `[-width/2, width/2]`, y in
/// `[-height/2, height/2]` (y up, origin at the centre) and z in `[-1, 1]`
/// are mapped onto clip space, with no translation.
#[derive(Clone, Copy, Debug, PartialEq, Eq, Structural)]
pub struct Projection {
    pub width: u32,
    pub height: u32,
}

/// The projection for a window of the given size.
pub fn projection_for(width: u32, height: u32) -> (r: Projection)
    ensures
        r == (Projection { width, height }),
{
    Projection { width, height }
}

impl Projection {
    /// The matrix's x scale, `2 / (right - left)`, that is one over the half-width.
    pub fn scale_x(&self) -> (r: Scale)
        ensures
            r == (Scale { num: 2, den: self.width as i64 }),
    {
        Scale { num: 2, den: self.width as i64 }
    }

    /// The matrix's y scale, `2 / (top - bottom)`, that is one over the half-height.
    pub fn scale_y(&self) -> (r: Scale)
        ensures
            r == (Scale { num: 2, den: self.height as i64 }),
    {
        Scale { num: 2, den: self.height as i64 }
    }

    /// The matrix's z scale, `-2 / (far - near)` with near -1 and far 1.
    pub fn scale_z(&self) -> (r: Scale)
        ensures
            r == (Scale { num: -1i64, den: 1 }),
    {
        Scale { num: -1, den: 1 }
    }
}

/// What the window reports.
#[derive(Clone, Copy, Debug, PartialEq, Eq, Structural)]
pub enum WindowEvent {
    Quit,
    Resized { width: i32, height: i32 },
    MouseMoved { x: i32, y: i32 },
    Other,
}

/// What the render loop must do for an event, in order.
#[derive(Clone, Copy, Debug, PartialEq, Eq, Structural)]
pub enum Action {
    /// Set the GL viewport to the whole window.
    SetViewport { width: u32, height: u32 },
    /// Compute the projection's matrix and upload it to the `projection` uniform.
    UploadProjection(Projection),
}

/// The render loop's state.
#[derive(Clone, Copy, Debug, PartialEq, Eq, Structural)]
pub struct ViewState {
    pub width: u32,
    pub height: u32,
    pub cursor_x: i32,
    pub cursor_y: i32,
    pub running: bool,
}

/// The state after `event`.
pub open spec fn next_state(s: ViewState, event: WindowEvent) -> ViewState {
    match event {
        WindowEvent::Quit => ViewState { running: false, ..s },
        WindowEvent::Resized { width, height } => if width > 0 && height > 0 {
            ViewState { width: width as u32, height: height as u32, ..s }
        } else {
            s
        },
        WindowEvent::MouseMoved { x, y } => ViewState { cursor_x: x, cursor_y: y, ..s },
        WindowEvent::Other => s,
    }
}

/// The actions for `event`: a resize to a non-empty size sets the viewport
/// and uploads the new projection once; every other event asks for nothing.
pub open spec fn event_actions(event: WindowEvent) -> Seq<Action> {
    match event {
        WindowEvent::Resized { width, height } => if width > 0 && height > 0 {
            seq![
                Action::SetViewport { width: width as u32, height: height as u32 },
                Action::UploadProjection(Projection { width: width as u32, height: height as u32 }),
            ]
        } else {
            Seq::empty()
        },
        _ => Seq::empty(),
    }
}

impl ViewState {
    /// A running loop for a window of the given size, the pointer at the origin.
    pub fn new(width: u32, height: u32) -> (r: ViewState)
        ensures
            r == (ViewState { width, height, cursor_x: 0, cursor_y: 0, running: true }),
    {
        ViewState { width, height, cursor_x: 0, cursor_y: 0, running: true }
    }

    /// What to do once before the first frame: upload the projection.
    pub fn startup_actions(&self) -> (r: Vec<Action>)
        ensures
            r@ == seq![Action::UploadProjection(Projection { width: self.width, height: self.height })],
    {
        let r = vec![Action::UploadProjection(projection_for(self.width, self.height))];
        assert(r@ =~= seq![Action::UploadProjection(Projection { width: self.width, height: self.height })]);
        r
    }

    /// Applies one window event and returns what the loop must do for it.
    pub fn handle_event(&mut self, event: WindowEvent) -> (r: Vec<Action>)
        ensures
            *final(self) == next_state(*old(self), event),
            r@ == event_actions(event),
    {
        match event {
            WindowEvent::Quit => {
                self.running = false;
                Vec::new()
            },
            WindowEvent::Resized { width, height } => {
                if width > 0 && height > 0 {
                    let w = width as u32;
                    let h = height as u32;
                    self.width = w;
                    self.height = h;
                    let r = vec![
                        Action::SetViewport { width: w, height: h },
                        Action::UploadProjection(projection_for(w, h)),
                    ];
                    assert(r@ =~= event_actions(event));
                    r
                } else {
                    Vec::new()
                }
            },
            WindowEvent::MouseMoved { x, y } => {
                self.cursor_x = x;
                self.cursor_y = y;
                Vec::new()
            },
            WindowEvent::Other => Vec::new(),
        }
    }
}

/// The number of projection uploads among `actions`.
pub open spec fn upload_count(actions: Seq<Action>) -> nat
    decreases actions.len(),
{
    if actions.len() == 0 {
        0
    } else {
        upload_count(actions.drop_last()) + if actions.last() is UploadProjection { 1nat } else { 0nat }
    }
}

/// A resize to a non-empty size makes the window that size and asks for
/// exactly one projection upload, whose x and y scales are one over the new
/// half-width and half-height.
pub proof fn lemma_resize_uploads_once(s: ViewState, width: i32, height: i32)
    requires
        width > 0,
        height > 0,
    ensures
        next_state(s, WindowEvent::Resized { width, height }).width == width,
        next_state(s, WindowEvent::Resized { width, height }).height == height,
        upload_count(event_actions(WindowEvent::Resized { width, height })) == 1,
        event_actions(WindowEvent::Resized { width, height }).last()
            == Action::UploadProjection(Projection { width: width as u32, height: height as u32 }),
{
    let acts = event_actions(WindowEvent::Resized { width, height });
    assert(acts.len() == 2);
    assert(acts.drop_last().drop_last() =~= Seq::<Action>::empty());
    assert(upload_count(acts.drop_last().drop_last()) == 0);
    assert(acts.drop_last().last() is SetViewport);
    assert(upload_count(acts.drop_last()) == 0);
    assert(acts.last() is UploadProjection);
}

/// No event but a resize asks for a projection upload.
pub proof fn lemma_only_resize_uploads(event: WindowEvent)
    requires
        !(event is Resized),
    ensures
        upload_count(event_actions(event)) == 0,
{
}

} // verus!
