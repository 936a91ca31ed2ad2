use vstd::prelude::*;

use crate::view::{folded, ANGLE_LIMIT, DEGREE};

verus! {

/// Key code that opens or closes the cube-map conversion dialog ('6').
pub const KEY_CUBES: u32 = 54;

/// Key code that opens or closes the image transfer dialog ('t').
pub const KEY_TRANSFER: u32 = 84;

/// Margin, in pixels, between the application area and the square drawing canvas.
pub const CANVAS_MARGIN: i64 = 10;

/// Which dialog, if any, is open over the canvas.
#[derive(Clone, Copy, Debug, PartialEq, Eq, Structural)]
pub enum Dialog {
    Closed,
    CubesToEquirectangular,
    ImageTransfer,
}

impl Dialog {
    pub fn open(&self) -> (r: bool)
        ensures
            r == !(*self is Closed),
    {
        match self {
            Dialog::Closed => false,
            _ => true,
        }
    }

    pub fn cubes_to_equirectangular_dialog_open(&self) -> (r: bool)
        ensures
            r == (*self is CubesToEquirectangular),
    {
        match self {
            Dialog::CubesToEquirectangular => true,
            _ => false,
        }
    }

    pub fn image_transfer_dialog_open(&self) -> (r: bool)
        ensures
            r == (*self is ImageTransfer),
    {
        match self {
            Dialog::ImageTransfer => true,
            _ => false,
        }
    }
}

/// What the host reports to the viewer. Pixel offsets and movements are whole pixels;
/// the field of view is in tenths of a degree.
#[derive(Clone, Copy, Debug, PartialEq, Eq, Structural)]
pub enum Msg {
    MouseDownCanvas { button: i16, offset_x: i32, offset_y: i32 },
    MouseMoveCanvas { movement_x: i32, movement_y: i32, offset_x: i32, offset_y: i32 },
    MouseUpCanvas,
    RenderCanvas,
    KeyDown { key_code: u32 },
    ExportPng,
    ImportPng,
    SwitchEnableGrid,
    ChangeMainCanvasSize { height: i32, width: i32 },
    ChangeFov { fov: i64 },
}

/// What the viewer asks the host to do.
#[derive(Clone, Copy, Debug, PartialEq, Eq, Structural)]
pub enum Action {
    /// Begin a new brush stroke.
    StartBrush,
    /// Paint the stroke segment between two canvas points, seen through a canvas of
    /// `canvas_size` pixels and a field of view of `fov` tenths of a degree.
    DrawBrush { from_x: i32, from_y: i32, to_x: i32, to_y: i32, canvas_size: i64, fov: i64 },
    /// Bake the stroke into the panorama, seen from the given rotation.
    StopBrush { rotation_x: i64, rotation_y: i64 },
    /// Draw the view and ask for the next frame.
    Show { rotation_x: i64, rotation_y: i64, fov: i64, enable_grid: bool },
    /// Ask the user where to save the panorama.
    AskSavePath,
    /// Ask the user which panorama to load.
    AskOpenPath,
}

/// A point of the canvas, in pixels from its top left corner.
#[derive(Clone, Copy, Debug, PartialEq, Eq, Structural)]
pub struct CanvasPoint {
    pub x: i32,
    pub y: i32,
}

/// The viewer's state: rotation in tenths of a degree, the mouse buttons held, the last
/// brush point, the open dialog, the grid switch and the sizes of the layout.
#[derive(Clone, Copy, Debug, PartialEq, Eq, Structural)]
pub struct Model {
    pub rotation_x: i64,
    pub rotation_y: i64,
    pub scroll_mouse_on: bool,
    pub left_mouse_on: bool,
    pub prev_mouse_point: Option<CanvasPoint>,
    pub dialog: Dialog,
    pub enable_grid: bool,
    pub app_height: i64,
    pub app_width: i64,
    pub main_canvas_size: i64,
    pub fov: i64,
}

/// The toggled dialog: `d` closes where it is open, else it replaces what was open.
pub open spec fn toggle(open: Dialog, d: Dialog) -> Dialog {
    if open == d {
        Dialog::Closed
    } else {
        d
    }
}

impl Model {
    /// Rotations stay within `ANGLE_LIMIT`, and a held left button always has a previous
    /// brush point.
    pub open spec fn wf(&self) -> bool {
        &&& -ANGLE_LIMIT <= self.rotation_x <= ANGLE_LIMIT
        &&& -ANGLE_LIMIT <= self.rotation_y <= ANGLE_LIMIT
        &&& self.left_mouse_on ==> self.prev_mouse_point is Some
    }

    /// `msg` keeps both rotations within `ANGLE_LIMIT`: a drag adds 0.3 degree a pixel, and
    /// releasing a drag may turn the yaw by half a turn.
    pub open spec fn keeps_angles(&self, msg: Msg) -> bool {
        match msg {
            Msg::MouseMoveCanvas { movement_x, movement_y, .. } => self.scroll_mouse_on ==> (
            -ANGLE_LIMIT <= self.rotation_y + 3 * movement_x <= ANGLE_LIMIT && -ANGLE_LIMIT
                <= self.rotation_x - 3 * movement_y <= ANGLE_LIMIT),
            Msg::MouseUpCanvas => (!self.left_mouse_on && self.scroll_mouse_on) ==> -ANGLE_LIMIT
                <= folded(self.rotation_x as int, self.rotation_y as int).1 <= ANGLE_LIMIT,
            _ => true,
        }
    }

    /// The state after `msg`, the actions asked of the host, and whether the page must be
    /// drawn again.
    pub open spec fn step(self, msg: Msg) -> (Model, Seq<Action>, bool) {
        match msg {
            Msg::MouseDownCanvas { button, offset_x, offset_y } => if button == 0 {
                (
                    Model { left_mouse_on: true, prev_mouse_point: Some(CanvasPoint { x: offset_x, y: offset_y }), ..self },
                    seq![Action::StartBrush],
                    false,
                )
            } else if button == 1 {
                (Model { scroll_mouse_on: true, ..self }, seq![], false)
            } else {
                (self, seq![], false)
            },
            Msg::MouseMoveCanvas { movement_x, movement_y, offset_x, offset_y } => {
                let turned = if self.scroll_mouse_on {
                    Model {
                        rotation_y: (self.rotation_y + 3 * movement_x) as i64,
                        rotation_x: (self.rotation_x - 3 * movement_y) as i64,
                        ..self
                    }
                } else {
                    self
                };
                if self.left_mouse_on {
                    let prev = self.prev_mouse_point->Some_0;
                    (
                        Model { prev_mouse_point: Some(CanvasPoint { x: offset_x, y: offset_y }), ..turned },
                        seq![
                            Action::DrawBrush {
                                from_x: prev.x,
                                from_y: prev.y,
                                to_x: offset_x,
                                to_y: offset_y,
                                canvas_size: self.main_canvas_size,
                                fov: self.fov,
                            },
                        ],
                        false,
                    )
                } else {
                    (turned, seq![], false)
                }
            },
            Msg::MouseUpCanvas => if self.left_mouse_on {
                (
                    Model { left_mouse_on: false, prev_mouse_point: None, ..self },
                    seq![
                        Action::StopBrush {
                            rotation_x: self.rotation_x,
                            rotation_y: self.rotation_y,
                        },
                    ],
                    false,
                )
            } else if self.scroll_mouse_on {
                let f = folded(self.rotation_x as int, self.rotation_y as int);
                (
                    Model {
                        scroll_mouse_on: false,
                        rotation_x: f.0 as i64,
                        rotation_y: f.1 as i64,
                        ..self
                    },
                    seq![],
                    false,
                )
            } else {
                (self, seq![], false)
            },
            Msg::RenderCanvas => (
                self,
                seq![
                    Action::Show {
                        rotation_x: self.rotation_x,
                        rotation_y: self.rotation_y,
                        fov: self.fov,
                        enable_grid: self.enable_grid,
                    },
                ],
                false,
            ),
            Msg::KeyDown { key_code } => if key_code == KEY_CUBES {
                (
                    Model { dialog: toggle(self.dialog, Dialog::CubesToEquirectangular), ..self },
                    seq![],
                    true,
                )
            } else if key_code == KEY_TRANSFER {
                (
                    Model { dialog: toggle(self.dialog, Dialog::ImageTransfer), ..self },
                    seq![],
                    true,
                )
            } else {
                (self, seq![], false)
            },
            Msg::ExportPng => (self, seq![Action::AskSavePath], false),
            Msg::ImportPng => (self, seq![Action::AskOpenPath], false),
            Msg::SwitchEnableGrid => (Model { enable_grid: !self.enable_grid, ..self }, seq![], true),
            Msg::ChangeMainCanvasSize { height, width } => (
                Model {
                    app_height: height as i64,
                    app_width: width as i64,
                    main_canvas_size: if height > width {
                        width - CANVAS_MARGIN
                    } else {
                        height - CANVAS_MARGIN
                    } as i64,
                    ..self
                },
                seq![],
                true,
            ),
            Msg::ChangeFov { fov } => (Model { fov, ..self }, seq![], false),
        }
    }

    /// The viewer as it starts: level, looking ahead, a 960 pixel layout and a 60 degree
    /// field of view.
    pub fn create() -> (r: Model)
        ensures
            r.wf(),
            r.rotation_x == 0 && r.rotation_y == 0,
            !r.scroll_mouse_on && !r.left_mouse_on && r.prev_mouse_point is None,
            r.dialog is Closed && !r.enable_grid,
            r.app_height == 960 && r.app_width == 960 && r.main_canvas_size == 950,
            r.fov == 60 * DEGREE,
    {
        Model {
            rotation_x: 0,
            rotation_y: 0,
            scroll_mouse_on: false,
            left_mouse_on: false,
            prev_mouse_point: None,
            dialog: Dialog::Closed,
            enable_grid: false,
            app_height: 960,
            app_width: 960,
            main_canvas_size: 950,
            fov: 60 * DEGREE,
        }
    }

    /// Folds the pitch back into [-90, 90] degrees, turning the yaw half round where it went
    /// past a pole.
    pub fn modify_rotation(&mut self)
        requires
            old(self).wf(),
            -ANGLE_LIMIT <= folded(old(self).rotation_x as int, old(self).rotation_y as int).1
                <= ANGLE_LIMIT,
        ensures
            final(self).wf(),
            (final(self).rotation_x as int, final(self).rotation_y as int) == folded(
                old(self).rotation_x as int,
                old(self).rotation_y as int,
            ),
            -90 * DEGREE <= final(self).rotation_x <= 90 * DEGREE,
            *final(self) == (Model {
                rotation_x: final(self).rotation_x,
                rotation_y: final(self).rotation_y,
                ..*old(self)
            }),
    {
        let (x, y) = fold(self.rotation_x, self.rotation_y);
        self.rotation_x = x;
        self.rotation_y = y;
    }

    /// Handles one message: updates the state, returns the actions for the host in order,
    /// and whether the page must be drawn again.
    pub fn update(&mut self, msg: Msg) -> (r: (Vec<Action>, bool))
        requires
            old(self).wf(),
            old(self).keeps_angles(msg),
        ensures
            final(self).wf(),
            *final(self) == old(self).step(msg).0,
            r.0@ == old(self).step(msg).1,
            r.1 == old(self).step(msg).2,
    {
        let mut actions: Vec<Action> = Vec::new();
        match msg {
            Msg::MouseDownCanvas { button, offset_x, offset_y } => {
                if button == 0 {
                    self.left_mouse_on = true;
                    self.prev_mouse_point = Some(CanvasPoint { x: offset_x, y: offset_y });
                    actions.push(Action::StartBrush);
                } else if button == 1 {
                    self.scroll_mouse_on = true;
                }
                (actions, false)
            },
            Msg::MouseMoveCanvas { movement_x, movement_y, offset_x, offset_y } => {
                if self.scroll_mouse_on {
                    self.rotation_y = self.rotation_y + 3 * (movement_x as i64);
                    self.rotation_x = self.rotation_x - 3 * (movement_y as i64);
                }
                if self.left_mouse_on {
                    let prev = match self.prev_mouse_point {
                        Some(p) => p,
                        None => CanvasPoint { x: offset_x, y: offset_y },
                    };
                    actions.push(
                        Action::DrawBrush {
                            from_x: prev.x,
                            from_y: prev.y,
                            to_x: offset_x,
                            to_y: offset_y,
                            canvas_size: self.main_canvas_size,
                            fov: self.fov,
                        },
                    );
                    self.prev_mouse_point = Some(CanvasPoint { x: offset_x, y: offset_y });
                }
                (actions, false)
            },
            Msg::MouseUpCanvas => {
                if self.left_mouse_on {
                    self.left_mouse_on = false;
                    self.prev_mouse_point = None;
                    actions.push(
                        Action::StopBrush {
                            rotation_x: self.rotation_x,
                            rotation_y: self.rotation_y,
                        },
                    );
                } else if self.scroll_mouse_on {
                    self.scroll_mouse_on = false;
                    self.modify_rotation();
                }
                (actions, false)
            },
            Msg::RenderCanvas => {
                actions.push(
                    Action::Show {
                        rotation_x: self.rotation_x,
                        rotation_y: self.rotation_y,
                        fov: self.fov,
                        enable_grid: self.enable_grid,
                    },
                );
                (actions, false)
            },
            Msg::KeyDown { key_code } => {
                if key_code == KEY_CUBES {
                    self.dialog = toggled(self.dialog, Dialog::CubesToEquirectangular);
                    (actions, true)
                } else if key_code == KEY_TRANSFER {
                    self.dialog = toggled(self.dialog, Dialog::ImageTransfer);
                    (actions, true)
                } else {
                    (actions, false)
                }
            },
            Msg::ExportPng => {
                actions.push(Action::AskSavePath);
                (actions, false)
            },
            Msg::ImportPng => {
                actions.push(Action::AskOpenPath);
                (actions, false)
            },
            Msg::SwitchEnableGrid => {
                self.enable_grid = !self.enable_grid;
                (actions, true)
            },
            Msg::ChangeMainCanvasSize { height, width } => {
                self.app_height = height as i64;
                self.app_width = width as i64;
                if height > width {
                    self.main_canvas_size = width as i64 - CANVAS_MARGIN;
                } else {
                    self.main_canvas_size = height as i64 - CANVAS_MARGIN;
                }
                (actions, true)
            },
            Msg::ChangeFov { fov } => {
                self.fov = fov;
                (actions, false)
            },
        }
    }
}

fn toggled(open: Dialog, d: Dialog) -> (r: Dialog)
    ensures
        r == toggle(open, d),
{
    if open == d {
        Dialog::Closed
    } else {
        d
    }
}

fn fold(x: i64, y: i64) -> (r: (i64, i64))
    requires
        -ANGLE_LIMIT <= x <= ANGLE_LIMIT,
        -ANGLE_LIMIT <= y <= ANGLE_LIMIT,
    ensures
        (r.0 as int, r.1 as int) == folded(x as int, y as int),
        -90 * DEGREE <= r.0 <= 90 * DEGREE,
{
    let m = match (x + 180 * DEGREE).checked_rem_euclid(360 * DEGREE) {
        Some(m) => m,
        None => 0,
    };
    let p = m - 180 * DEGREE;
    if p > 90 * DEGREE {
        (180 * DEGREE - p, y + 180 * DEGREE)
    } else if p < -90 * DEGREE {
        (-180 * DEGREE - p, y + 180 * DEGREE)
    } else {
        (p, y)
    }
}

} // verus!
