use vstd::prelude::*;

use crate::coords::Coords;

verus! {

/// The buttons of the main menu.
#[derive(Copy, Clone, PartialEq, Eq, Debug, Structural)]
pub enum ButtonId {
    Exit,
    Start,
    Settings,
}

/// A rectangle on screen: left, top, width and height in pixels.
#[derive(Copy, Clone, PartialEq, Eq, Debug, Structural)]
pub struct Area(pub i32, pub i32, pub u32, pub u32);

/// The point lies in the area: from its left and top sides included to its
/// right and bottom sides excluded.
pub open spec fn area_holds(a: Area, p: Coords) -> bool {
    a.0 <= p.0 < a.0 + a.2 && a.1 <= p.1 < a.1 + a.3
}

/// The area's sides fit in an `i32`.
pub open spec fn area_fits(a: Area) -> bool {
    a.2 <= i32::MAX && a.3 <= i32::MAX && a.0 + a.2 <= i32::MAX && a.1 + a.3 <= i32::MAX
}

/// True when `p` lies in the area (see `area_holds`).
pub fn area_contains(a: Area, p: Coords) -> (r: bool)
    requires
        area_fits(a),
    ensures
        r == area_holds(a, p),
{
    let right = a.0 + a.2 as i32;
    let bottom = a.1 + a.3 as i32;
    p.0 >= a.0 && p.0 < right && p.1 >= a.1 && p.1 < bottom
}

/// A button of the main menu: where it stands, its label, its RGBA color and
/// what it is.
pub struct Button {
    pub rect: Area,
    pub text: String,
    pub color: (u8, u8, u8, u8),
    pub id: ButtonId,
}

/// Where each menu button stands.
pub open spec fn button_area(id: ButtonId) -> Area {
    match id {
        ButtonId::Start => Area(300, 0, 300, 100),
        ButtonId::Settings => Area(300, 200, 300, 100),
        ButtonId::Exit => Area(300, 600, 300, 100),
    }
}

/// Label of each menu button.
pub open spec fn button_text(id: ButtonId) -> Seq<char> {
    match id {
        ButtonId::Start => "Start"@,
        ButtonId::Settings => "Settings"@,
        ButtonId::Exit => "Close"@,
    }
}

/// Color of each menu button: green to start, gray for the settings, red to close.
pub open spec fn button_color(id: ButtonId) -> (u8, u8, u8, u8) {
    match id {
        ButtonId::Start => (0u8, 255u8, 0u8, 255u8),
        ButtonId::Settings => (128u8, 128u8, 128u8, 255u8),
        ButtonId::Exit => (255u8, 0u8, 0u8, 255u8),
    }
}

impl Button {
    /// The menu button `id`.
    pub fn new(id: ButtonId) -> (r: Button)
        ensures
            r.id == id,
            r.rect == button_area(id),
            r.text@ == button_text(id),
            r.color == button_color(id),
    {
        match id {
            ButtonId::Start => Button {
                rect: Area(300, 0, 300, 100),
                text: "Start".to_string(),
                color: (0, 255, 0, 255),
                id: ButtonId::Start,
            },
            ButtonId::Settings => Button {
                rect: Area(300, 200, 300, 100),
                text: "Settings".to_string(),
                color: (128, 128, 128, 255),
                id: ButtonId::Settings,
            },
            ButtonId::Exit => Button {
                rect: Area(300, 600, 300, 100),
                text: "Close".to_string(),
                color: (255, 0, 0, 255),
                id: ButtonId::Exit,
            },
        }
    }

    /// The button's id when `coords` lies on it; an error otherwise.
    pub fn clicked(self, coords: Coords) -> (r: Result<ButtonId, ()>)
        requires
            area_fits(self.rect),
        ensures
            r == if area_holds(self.rect, coords) {
                Ok::<ButtonId, ()>(self.id)
            } else {
                Err(())
            },
    {
        if area_contains(self.rect, coords) {
            Ok(self.id)
        } else {
            Err(())
        }
    }
}

/// A menu: its buttons.
pub struct Menu {
    pub buttons: Vec<Button>,
}

/// The main menu's buttons: start, settings, then exit.
pub fn create_main_menu_buttons() -> (r: Vec<Button>)
    ensures
        r@.len() == 3,
        r@[0].id == ButtonId::Start,
        r@[1].id == ButtonId::Settings,
        r@[2].id == ButtonId::Exit,
        forall|i: int| 0 <= i < 3 ==> (#[trigger] r@[i]).rect == button_area(r@[i].id) && r@[i].text@ == button_text(r@[i].id)
            && r@[i].color == button_color(r@[i].id),
{
    let mut buttons: Vec<Button> = Vec::new();
    buttons.push(Button::new(ButtonId::Start));
    buttons.push(Button::new(ButtonId::Settings));
    buttons.push(Button::new(ButtonId::Exit));
    buttons
}

/// The first main menu button, in order, that `coords` lies on.
pub fn menu_choice(buttons: &Vec<Button>, coords: Coords) -> (r: Option<ButtonId>)
    requires
        forall|i: int| 0 <= i < buttons@.len() ==> area_fits(#[trigger] buttons@[i].rect),
    ensures
        r is Some <==> exists|i: int| 0 <= i < buttons@.len() && area_holds(#[trigger] buttons@[i].rect, coords),
        r matches Some(id) ==> exists|i: int|
            0 <= i < buttons@.len() && area_holds(#[trigger] buttons@[i].rect, coords) && buttons@[i].id == id && forall|j: int|
                0 <= j < i ==> !area_holds(#[trigger] buttons@[j].rect, coords),
{
    let n = buttons.len();
    let mut i: usize = 0;
    while i < n
        invariant
            n == buttons@.len(),
            i <= n,
            forall|k: int| 0 <= k < buttons@.len() ==> area_fits(#[trigger] buttons@[k].rect),
            forall|j: int| 0 <= j < i ==> !area_holds(#[trigger] buttons@[j].rect, coords),
        decreases n - i,
    {
        if area_contains(buttons[i].rect, coords) {
            return Some(buttons[i].id);
        }
        i = i + 1;
    }
    None
}

/// A slider of the interface: where it stands, its range and value, and
/// whether it is being dragged.
pub struct Slider {
    pub x: i32,
    pub y: i32,
    pub width: i32,
    pub min: i32,
    pub max: i32,
    pub value: i32,
    pub is_dragging: bool,
}

} // verus!
