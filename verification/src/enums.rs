//! Small enumerations shared with the interactive layers around the engine.

use vstd::prelude::*;

verus! {

/// Keyboard keys the input layer can report.
#[allow(dead_code)]
pub enum Keys {
    A,
    B,
    C,
    D,
    E,
    F,
    G,
    H,
    I,
    J,
    K,
    L,
    M,
    N,
    O,
    P,
    Q,
    R,
    S,
    T,
    U,
    V,
    W,
    X,
    Y,
    Z,
    Num0,
    Num1,
    Num2,
    Num3,
    Num4,
    Num5,
    Num6,
    Num7,
    Num8,
    Num9,
    LeftShift,
    RightShift,
    LeftCtrl,
    RightCtrl,
    LeftAlt,
    RightAlt,
    LeftSuper,
    RightSuper,
    Space,
    Plus,
    Minus,
}

/// Mouse buttons the input layer can report.
pub enum Mouse {
    Left,
    Right,
    Middle,
}

/// The panels of the debug interface.
#[derive(Debug, Copy, Clone)]
pub enum Menu {
    Config,
    FPS,
    Energy,
    Camera,
    Spawner,
    Input,
    Editor,
    DragParams,
    Advanced,
    Debug,
    Color,
}

/// The kind of entity a builder creates.
#[derive(Debug, PartialEq, Eq, Structural, Clone)]
pub enum BodyType {
    RegularPolygon,
    Rectangle,
    Spring,
    WeldJoint,
    PivotJoint,
}

/// Whether a body gets a random or a fixed color.
#[derive(Debug, PartialEq, Eq, Structural, Clone)]
pub enum ColorType {
    Random,
    Fixed,
}

/// What mouse interaction currently does.
#[derive(Debug, PartialEq, Eq, Structural, Clone, Copy)]
pub enum InputMode {
    Spawn,
    Edit,
    Drag,
    Move,
    Nothing,
}

/// The lifecycle of a drag gesture.
#[derive(Debug, PartialEq, Eq, Structural)]
pub enum DraggingState {
    NotDragging,
    Dragging,
    StartDragging,
    StopDragging,
}

} // verus!
