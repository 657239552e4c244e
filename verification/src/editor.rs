//! What the editor does with the events of the pointer and with its
//! commands: by the mode it is in, each event leads to one operation on the
//! collection of shapes.

use vstd::prelude::*;
use crate::json::text_of_json;
use crate::kind::{ShapeError, ShapeState, ShapeType};
use crate::number::{sat32, sub_coordinate};
use crate::shape::Shape;
use crate::storage::{ShapeStorage, StorageModel};

verus! {

/// What the pointer is used for.
#[derive(Debug, Clone, Copy, PartialEq, Eq, Structural)]
pub enum Mode {
    /// Clicks set the points of shapes.
    Draw,
    /// Hovering highlights and clicks select.
    Select,
    /// Dragging resizes the selected shape.
    Resize,
    /// Dragging moves the selected shape.
    Move,
}

/// The state of the editor: the collection of shapes, and what the pointer
/// does next.
pub struct Editor {
    shape_type: ShapeType,
    shape_storage: ShapeStorage,
    mode: Mode,
    is_dragging: bool,
    last_cursor_pos: (i32, i32),
    resize_anchor: (i32, i32),
    json: String,
}

/// What an `Editor` stands for.
pub struct EditorModel {
    /// The kind of the shapes that are drawn next.
    pub shape_type: ShapeType,
    pub storage: StorageModel,
    pub mode: Mode,
    /// Whether the pointer is held down in a mode that drags.
    pub is_dragging: bool,
    /// Where the pointer was when the last step of a drag was taken.
    pub last_cursor_pos: (i32, i32),
    /// Where a resize takes hold of the selected shape.
    pub resize_anchor: (i32, i32),
    /// The JSON text that was saved or loaded last, or typed in.
    pub json: Seq<char>,
}

impl EditorModel {
    /// The editor as it starts: no shapes, drawing lines.
    pub open spec fn start() -> EditorModel {
        EditorModel {
            shape_type: ShapeType::Line,
            storage: StorageModel::empty(),
            mode: Mode::Draw,
            is_dragging: false,
            last_cursor_pos: (0, 0),
            resize_anchor: (0, 0),
            json: Seq::empty(),
        }
    }

    /// Whether the mode is one in which the pointer drags a shape.
    pub open spec fn drags(self) -> bool {
        self.mode == Mode::Resize || self.mode == Mode::Move
    }

    /// How far a pointer at `(x, y)` is from where the last step of the drag
    /// was taken.
    pub open spec fn change_to(self, x: i32, y: i32) -> (i32, i32) {
        (sat32(x - self.last_cursor_pos.0), sat32(y - self.last_cursor_pos.1))
    }

    /// After a click at `(x, y)`. In draw mode the click is the next point of
    /// the drawing: it goes to the shape that the collection has ready for the
    /// kind that is drawn. In every other mode the click selects.
    pub open spec fn clicked(self, x: i32, y: i32) -> EditorModel {
        if self.mode == Mode::Draw {
            let ready = self.storage.ready_for(self.shape_type);
            let c = ready.current->0;
            EditorModel { storage: ready.with_shape(c, ready.shapes[c].with_point(x, y)), ..self }
        } else {
            EditorModel { storage: self.storage.selected_at(x as int, y as int), ..self }
        }
    }

    /// After the pointer came to `(x, y)`. In draw mode the end of the
    /// current shape follows the pointer while that shape is being drawn. In
    /// select mode the pointer highlights, and so it does in the two dragging
    /// modes while nothing is dragged. While the pointer drags, the selected
    /// shape is resized or moved by how far the pointer has come since the
    /// last step; a resize takes hold at the anchor, and then moves the
    /// anchor along. Without a selected shape a drag does nothing.
    pub open spec fn pointer_moved(self, x: i32, y: i32) -> EditorModel {
        let change = self.change_to(x, y);
        let shapes = self.storage.shapes;
        let highlighting = EditorModel {
            storage: self.storage.highlighted_at(x as int, y as int),
            ..self
        };
        match self.mode {
            Mode::Draw => match self.storage.current {
                Some(c) => if shapes[c].state() == ShapeState::Drawing {
                    EditorModel { storage: self.storage.with_shape(c, shapes[c].with_end(x, y)), ..self }
                } else {
                    self
                },
                None => self,
            },
            Mode::Select => highlighting,
            Mode::Resize => if !self.is_dragging {
                highlighting
            } else {
                match self.storage.selected {
                    Some(s) => EditorModel {
                        storage: self.storage.with_shape(
                            s,
                            shapes[s].resized(change, self.resize_anchor),
                        ),
                        last_cursor_pos: (x, y),
                        resize_anchor: (x, y),
                        ..self
                    },
                    None => self,
                }
            },
            Mode::Move => if !self.is_dragging {
                highlighting
            } else {
                match self.storage.selected {
                    Some(s) => EditorModel {
                        storage: self.storage.with_shape(s, shapes[s].moved(change.0, change.1)),
                        last_cursor_pos: (x, y),
                        ..self
                    },
                    None => self,
                }
            },
        }
    }

    /// After the pointer was pressed or released at `(x, y)`. In the two
    /// dragging modes this starts or ends a drag, which goes on from there;
    /// in the other modes it does nothing.
    pub open spec fn pressed(self, down: bool, x: i32, y: i32) -> EditorModel {
        if self.drags() {
            EditorModel { is_dragging: down, last_cursor_pos: (x, y), resize_anchor: (x, y), ..self }
        } else {
            self
        }
    }

    /// After the property `key` of the selected shape was edited to `value`.
    /// Without a selected shape nothing changes.
    pub open spec fn edited(self, key: Seq<char>, value: Seq<char>) -> Result<EditorModel, ShapeError> {
        match self.storage.selected {
            Some(s) => match self.storage.shapes[s].with_prop(key, value) {
                Ok(shape) => Ok(EditorModel { storage: self.storage.with_shape(s, shape), ..self }),
                Err(e) => Err(e),
            },
            None => Ok(self),
        }
    }
}

impl View for Editor {
    type V = EditorModel;

    closed spec fn view(&self) -> EditorModel {
        EditorModel {
            shape_type: self.shape_type,
            storage: self.shape_storage@,
            mode: self.mode,
            is_dragging: self.is_dragging,
            last_cursor_pos: self.last_cursor_pos,
            resize_anchor: self.resize_anchor,
            json: self.json@,
        }
    }
}

impl Editor {
    /// The invariant of the editor: its collection is well formed. Every
    /// operation keeps it, and `new` starts with it.
    pub open spec fn wf(self) -> bool {
        self@.storage.valid()
    }

    /// An editor without shapes, set to draw lines.
    pub fn new() -> (editor: Editor)
        ensures
            editor.wf(),
            editor@ == EditorModel::start(),
    {
        Editor {
            shape_type: ShapeType::Line,
            shape_storage: ShapeStorage::new(),
            mode: Mode::Draw,
            is_dragging: false,
            last_cursor_pos: (0, 0),
            resize_anchor: (0, 0),
            json: String::new(),
        }
    }

    /// The collection of shapes, to look at.
    pub fn storage(&self) -> (storage: &ShapeStorage)
        requires
            self.wf(),
        ensures
            storage.wf(),
            storage@ == self@.storage,
    {
        &self.shape_storage
    }

    /// The kind of the shapes that are drawn next.
    pub fn shape_type(&self) -> (kind: ShapeType)
        ensures
            kind == self@.shape_type,
    {
        self.shape_type
    }

    /// What the pointer is used for.
    pub fn mode(&self) -> (mode: Mode)
        ensures
            mode == self@.mode,
    {
        self.mode
    }

    /// The JSON text that was saved or loaded last, or typed in.
    pub fn json(&self) -> (json: &String)
        ensures
            json@ == self@.json,
    {
        &self.json
    }

    /// Chooses the kind of the shapes that are drawn next.
    pub fn set_shape_type(&mut self, shape_type: ShapeType)
        requires
            old(self).wf(),
        ensures
            final(self).wf(),
            final(self)@ == (EditorModel { shape_type, ..old(self)@ }),
    {
        self.shape_type = shape_type;
    }

    /// Changes the mode. A drag that is under way goes on in the new mode.
    pub fn set_mode(&mut self, mode: Mode)
        requires
            old(self).wf(),
        ensures
            final(self).wf(),
            final(self)@ == (EditorModel { mode, ..old(self)@ }),
    {
        self.mode = mode;
    }

    /// Takes a click at `(x, y)`.
    pub fn mouse_clicked(&mut self, x: i32, y: i32)
        requires
            old(self).wf(),
        ensures
            final(self).wf(),
            final(self)@ == old(self)@.clicked(x, y),
    {
        match self.mode {
            Mode::Draw => {
                let shape = self.shape_storage.get_or_create_shape(self.shape_type);
                shape.add_point(x, y);
            },
            Mode::Resize | Mode::Move | Mode::Select => {
                let _ = self.shape_storage.intersect_and_select(x, y);
            },
        }
    }

    /// Takes a move of the pointer to `(x, y)`.
    pub fn mouse_move(&mut self, x: i32, y: i32)
        requires
            old(self).wf(),
        ensures
            final(self).wf(),
            final(self)@ == old(self)@.pointer_moved(x, y),
    {
        let ghost before = self.shape_storage@;
        proof {
            if let Some(c) = before.current {
                assert(before.shapes.update(c, before.shapes[c]) =~= before.shapes);
            }
        }
        let change = (
            sub_coordinate(x, self.last_cursor_pos.0),
            sub_coordinate(y, self.last_cursor_pos.1),
        );
        match self.mode {
            Mode::Draw => {
                if let Some(shape) = self.shape_storage.get_current_mut() {
                    if shape.get_state() == ShapeState::Drawing {
                        shape.set_end(x, y);
                    }
                }
            },
            Mode::Select => {
                let _ = self.shape_storage.intersect_and_highlight(x, y);
            },
            Mode::Resize => {
                if self.is_dragging {
                    if let Some(shape) = self.shape_storage.get_selected_mut() {
                        shape.resize(change, self.resize_anchor);
                        self.last_cursor_pos = (x, y);
                        self.resize_anchor = (x, y);
                    }
                } else {
                    let _ = self.shape_storage.intersect_and_highlight(x, y);
                }
            },
            Mode::Move => {
                if self.is_dragging {
                    if let Some(shape) = self.shape_storage.get_selected_mut() {
                        shape.move_by(change.0, change.1);
                        self.last_cursor_pos = (x, y);
                    }
                } else {
                    let _ = self.shape_storage.intersect_and_highlight(x, y);
                }
            },
        }
    }

    /// Takes a press of the pointer at `(x, y)`.
    pub fn mouse_down(&mut self, x: i32, y: i32)
        requires
            old(self).wf(),
        ensures
            final(self).wf(),
            final(self)@ == old(self)@.pressed(true, x, y),
    {
        match self.mode {
            Mode::Resize | Mode::Move => {
                self.is_dragging = true;
                self.last_cursor_pos = (x, y);
                self.resize_anchor = (x, y);
            },
            _ => {},
        }
    }

    /// Takes a release of the pointer at `(x, y)`.
    pub fn mouse_up(&mut self, x: i32, y: i32)
        requires
            old(self).wf(),
        ensures
            final(self).wf(),
            final(self)@ == old(self)@.pressed(false, x, y),
    {
        match self.mode {
            Mode::Resize | Mode::Move => {
                self.is_dragging = false;
                self.last_cursor_pos = (x, y);
                self.resize_anchor = (x, y);
            },
            _ => {},
        }
    }

    /// Removes every shape.
    pub fn clear_screen(&mut self)
        requires
            old(self).wf(),
        ensures
            final(self).wf(),
            final(self)@ == (EditorModel { storage: StorageModel::empty(), ..old(self)@ }),
    {
        self.shape_storage.clear();
    }

    /// Starts a shape of the kind that is drawn.
    pub fn new_shape(&mut self)
        requires
            old(self).wf(),
        ensures
            final(self).wf(),
            final(self)@ == (EditorModel {
                storage: old(self)@.storage.with_new_shape(old(self)@.shape_type),
                ..old(self)@
            }),
    {
        self.shape_storage.new_shape(self.shape_type);
    }

    /// Completes the selected shape, if both its points are set.
    pub fn submit_shape(&mut self)
        requires
            old(self).wf(),
        ensures
            final(self).wf(),
            final(self)@ == (EditorModel { storage: old(self)@.storage.submitted(), ..old(self)@ }),
    {
        self.shape_storage.submit_shape();
    }

    /// Edits a property of the selected shape. A value that is no number for
    /// the property is turned down and changes nothing.
    pub fn value_changed(&mut self, key: &str, value: &str) -> (r: Result<(), ShapeError>)
        requires
            old(self).wf(),
        ensures
            final(self).wf(),
            match old(self)@.edited(key@, value@) {
                Ok(editor) => r is Ok && final(self)@ == editor,
                Err(e) => r == Err::<(), ShapeError>(e) && final(self)@ == old(self)@,
            },
    {
        let ghost before = self.shape_storage@;
        let r = match self.shape_storage.get_selected_mut() {
            Some(shape) => shape.set_prop(key, value),
            None => Ok(()),
        };
        proof {
            if let Some(s) = before.selected {
                assert(before.shapes.update(s, before.shapes[s]) =~= before.shapes);
            }
        }
        r
    }

    /// Writes the collection as JSON text and keeps the text.
    pub fn save_to_json(&mut self)
        requires
            old(self).wf(),
        ensures
            final(self).wf(),
            final(self)@ == (EditorModel {
                json: text_of_json(old(self)@.storage.document()),
                ..old(self)@
            }),
    {
        self.json = self.shape_storage.serialize_to_json();
    }

    /// Loads a JSON text and keeps the text. A text that is turned down
    /// leaves the collection as it was.
    pub fn load_from_json(&mut self, value: String) -> (r: Result<(), ShapeError>)
        requires
            old(self).wf(),
        ensures
            final(self).wf(),
            match old(self)@.storage.with_text(value@) {
                Ok(storage) => r is Ok && final(self)@ == (EditorModel {
                    storage,
                    json: value@,
                    ..old(self)@
                }),
                Err(e) => r == Err::<(), ShapeError>(e) && final(self)@ == (EditorModel {
                    json: value@,
                    ..old(self)@
                }),
            },
    {
        let r = self.shape_storage.deserialize_from_json(value.as_str());
        self.json = value;
        r
    }

    /// Keeps a JSON text that was typed in.
    pub fn json_changed(&mut self, value: String)
        requires
            old(self).wf(),
        ensures
            final(self).wf(),
            final(self)@ == (EditorModel { json: value@, ..old(self)@ }),
    {
        self.json = value;
    }
}

} // verus!
