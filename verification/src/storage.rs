//! The collection of shapes on the canvas and its three cursors.

use vstd::prelude::*;
use crate::json::{
    items_model, json_of_text, lemma_items_model, lemma_items_model_push, text_of_json, Json,
    JsonModel,
};
use crate::kind::{ShapeError, ShapeState, ShapeType};
use crate::shape::Shape;

verus! {

/// The shapes of a drawing in the order in which they were added, and three
/// cursors into them: the shape that is being drawn, the shape under the
/// pointer and the shape that is selected. Shapes are only ever added at the
/// end, so a cursor keeps pointing at its shape until the collection is
/// cleared.
pub struct ShapeStorage {
    shapes: Vec<Shape>,
    current_shape_idx: usize,
    highlighted_shape_idx: Option<usize>,
    selected_shape_idx: Option<usize>,
}

/// What a `ShapeStorage` stands for.
pub struct StorageModel {
    pub shapes: Seq<Shape>,
    /// The place of the shape that is being drawn. An empty collection has
    /// none.
    pub current: Option<int>,
    /// The place of the shape under the pointer.
    pub highlighted: Option<int>,
    /// The place of the shape that is selected.
    pub selected: Option<int>,
}

/// Whether a cursor points at a shape of the collection, if it is set.
pub open spec fn in_reach(cursor: Option<int>, shapes: Seq<Shape>) -> bool {
    cursor matches Some(i) ==> 0 <= i < shapes.len()
}

/// Whether `found` is the place of the first shape that `(x, y)` hits: the
/// hit with the lowest place, or `None` where the point hits no shape.
pub open spec fn is_first_hit(shapes: Seq<Shape>, x: int, y: int, found: Option<int>) -> bool {
    match found {
        Some(i) => {
            &&& 0 <= i < shapes.len()
            &&& shapes[i].hit(x, y)
            &&& forall|j: int| 0 <= j < i ==> !(#[trigger] shapes[j]).hit(x, y)
        },
        None => forall|j: int| 0 <= j < shapes.len() ==> !(#[trigger] shapes[j]).hit(x, y),
    }
}

/// The place of the first shape that `(x, y)` hits, if it hits any. Shapes
/// that were added earlier come first, whatever lies on top in the drawing.
pub open spec fn first_hit(shapes: Seq<Shape>, x: int, y: int) -> Option<int>
    decreases shapes.len(),
{
    if shapes.len() == 0 {
        None
    } else {
        match first_hit(shapes.drop_last(), x, y) {
            Some(i) => Some(i),
            None => if shapes.last().hit(x, y) {
                Some(shapes.len() - 1)
            } else {
                None
            },
        }
    }
}

/// `first_hit` is the hit with the lowest place.
pub proof fn lemma_first_hit(shapes: Seq<Shape>, x: int, y: int)
    ensures
        is_first_hit(shapes, x, y, first_hit(shapes, x, y)),
    decreases shapes.len(),
{
    if shapes.len() > 0 {
        let front = shapes.drop_last();
        lemma_first_hit(front, x, y);
        assert forall|j: int| 0 <= j < front.len() implies front[j] == shapes[j] by {}
    }
}

/// A point hits at most one shape first.
pub proof fn lemma_first_hit_unique(
    shapes: Seq<Shape>,
    x: int,
    y: int,
    a: Option<int>,
    b: Option<int>,
)
    requires
        is_first_hit(shapes, x, y, a),
        is_first_hit(shapes, x, y, b),
    ensures
        a == b,
{
}

impl StorageModel {
    /// Every cursor that is set points at a shape, and there is a current
    /// shape as soon as there is any shape.
    pub open spec fn valid(self) -> bool {
        &&& in_reach(self.current, self.shapes)
        &&& in_reach(self.highlighted, self.shapes)
        &&& in_reach(self.selected, self.shapes)
        &&& self.current is Some <==> self.shapes.len() > 0
    }

    /// The collection with nothing in it.
    pub open spec fn empty() -> StorageModel {
        StorageModel { shapes: Seq::empty(), current: None, highlighted: None, selected: None }
    }

    /// The collection after a shape of the given kind was started on
    /// request: the new shape is the last one, it is current and selected,
    /// and nothing is highlighted.
    pub open spec fn with_new_shape(self, kind: ShapeType) -> StorageModel {
        StorageModel {
            shapes: self.shapes.push(Shape::fresh(kind)),
            current: Some(self.shapes.len() as int),
            highlighted: None,
            selected: Some(self.shapes.len() as int),
        }
    }

    /// Whether the next point of a drawing of the given kind goes on with
    /// the current shape: there is one, it is of that kind, and it is not
    /// complete.
    pub open spec fn continues(self, kind: ShapeType) -> bool {
        &&& self.current matches Some(c)
        &&& self.shapes[c].kind() == kind
        &&& self.shapes[c].state() != ShapeState::Complete
    }

    /// The collection made ready for the next point of a drawing of the
    /// given kind. Where the drawing goes on with the current shape, that
    /// shape is selected. Otherwise a new shape of the kind is added at the
    /// end and made current.
    pub open spec fn ready_for(self, kind: ShapeType) -> StorageModel {
        if self.continues(kind) {
            StorageModel { selected: self.current, ..self }
        } else {
            StorageModel {
                shapes: self.shapes.push(Shape::fresh(kind)),
                current: Some(self.shapes.len() as int),
                ..self
            }
        }
    }

    /// Whether the selected shape can be submitted: there is one, and both
    /// its origin and its end are set.
    pub open spec fn can_submit(self) -> bool {
        &&& self.selected matches Some(s)
        &&& self.shapes[s].origin() is Some
        &&& self.shapes[s].end() is Some
    }

    /// The collection after a submit: the selected shape is complete if it
    /// can be submitted, and nothing has changed if it cannot.
    pub open spec fn submitted(self) -> StorageModel {
        if self.can_submit() {
            let s = self.selected->0;
            StorageModel {
                shapes: self.shapes.update(s, self.shapes[s].with_state(ShapeState::Complete)),
                ..self
            }
        } else {
            self
        }
    }

    /// The collection after a pointer at `(x, y)` looked for a shape to
    /// highlight: the first shape that it hits is highlighted, and nothing is
    /// if it hits none.
    pub open spec fn highlighted_at(self, x: int, y: int) -> StorageModel {
        StorageModel { highlighted: first_hit(self.shapes, x, y), ..self }
    }

    /// The collection after a pointer at `(x, y)` looked for a shape to
    /// select: the first shape that it hits is selected, and nothing is if it
    /// hits none.
    pub open spec fn selected_at(self, x: int, y: int) -> StorageModel {
        StorageModel { selected: first_hit(self.shapes, x, y), ..self }
    }

    /// The shape at a cursor, if the cursor is set.
    pub open spec fn shape_at(self, cursor: Option<int>) -> Option<Shape> {
        match cursor {
            Some(i) => Some(self.shapes[i]),
            None => None,
        }
    }

    /// The collection with one shape replaced.
    pub open spec fn with_shape(self, at: int, shape: Shape) -> StorageModel {
        StorageModel { shapes: self.shapes.update(at, shape), ..self }
    }
}

/// The documents of a list of shapes, in the order of the shapes.
pub open spec fn documents(shapes: Seq<Shape>) -> Seq<JsonModel> {
    Seq::new(shapes.len(), |i: int| shapes[i].document())
}

/// The shapes that a list of documents describes, in the order of the
/// documents. If one of them describes no shape, the whole list describes
/// none, and the first such document decides the error.
pub open spec fn decoded_all(items: Seq<JsonModel>) -> Result<Seq<Shape>, ShapeError>
    decreases items.len(),
{
    if items.len() == 0 {
        Ok(Seq::empty())
    } else {
        match decoded_all(items.drop_last()) {
            Ok(shapes) => match Shape::decoded(items.last()) {
                Ok(shape) => Ok(shapes.push(shape)),
                Err(e) => Err(e),
            },
            Err(e) => Err(e),
        }
    }
}

impl StorageModel {
    /// The document of the collection: the array of the documents of its
    /// shapes.
    pub open spec fn document(self) -> JsonModel {
        JsonModel::Array(documents(self.shapes))
    }

    /// The collection with shapes added at the end. The cursors stay; a
    /// collection that was empty gets its first shape as the current one.
    pub open spec fn with_shapes(self, added: Seq<Shape>) -> StorageModel {
        StorageModel {
            shapes: self.shapes + added,
            current: if self.shapes.len() > 0 {
                self.current
            } else if added.len() > 0 {
                Some(0)
            } else {
                None
            },
            ..self
        }
    }

    /// What loading a document leads to. The document has to be an array of
    /// shape documents; its shapes are added at the end, all of them or none.
    pub open spec fn with_document(self, doc: JsonModel) -> Result<StorageModel, ShapeError> {
        match doc {
            JsonModel::Array(items) => match decoded_all(items) {
                Ok(shapes) => Ok(self.with_shapes(shapes)),
                Err(e) => Err(e),
            },
            _ => Err(ShapeError::MalformedDocument),
        }
    }

    /// What loading a JSON text leads to: a text that is no JSON is a
    /// malformed document, any other is loaded as the document it is.
    pub open spec fn with_text(self, text: Seq<char>) -> Result<StorageModel, ShapeError> {
        match json_of_text(text) {
            Some(doc) => self.with_document(doc),
            None => Err(ShapeError::MalformedDocument),
        }
    }
}

/// One more document at the end is read after the others, and only if they
/// were read.
pub proof fn lemma_decoded_all_push(items: Seq<JsonModel>, item: JsonModel)
    ensures
        decoded_all(items.push(item)) == match decoded_all(items) {
            Ok(shapes) => match Shape::decoded(item) {
                Ok(shape) => Ok(shapes.push(shape)),
                Err(e) => Err(e),
            },
            Err(e) => Err::<Seq<Shape>, ShapeError>(e),
        },
{
    assert(items.push(item).drop_last() =~= items);
}

impl View for ShapeStorage {
    type V = StorageModel;

    closed spec fn view(&self) -> StorageModel {
        StorageModel {
            shapes: self.shapes@,
            current: if self.shapes@.len() == 0 {
                None
            } else {
                Some(self.current_shape_idx as int)
            },
            highlighted: match self.highlighted_shape_idx {
                Some(i) => Some(i as int),
                None => None,
            },
            selected: match self.selected_shape_idx {
                Some(i) => Some(i as int),
                None => None,
            },
        }
    }
}

impl ShapeStorage {
    /// The invariant of the collection: what it stands for is valid. Every
    /// operation keeps it, and `new` starts with it.
    pub open spec fn wf(self) -> bool {
        self@.valid()
    }

    /// A collection without shapes.
    pub fn new() -> (storage: ShapeStorage)
        ensures
            storage.wf(),
            storage@ == StorageModel::empty(),
    {
        ShapeStorage {
            shapes: Vec::new(),
            current_shape_idx: 0,
            highlighted_shape_idx: None,
            selected_shape_idx: None,
        }
    }

    /// The shapes in the order in which they were added, which is also the
    /// order in which they are drawn.
    pub fn get_shapes(&self) -> (shapes: &Vec<Shape>)
        ensures
            shapes@ == self@.shapes,
    {
        &self.shapes
    }

    /// Removes every shape and resets the cursors.
    pub fn clear(&mut self)
        ensures
            final(self).wf(),
            final(self)@ == StorageModel::empty(),
    {
        self.current_shape_idx = 0;
        self.highlighted_shape_idx = None;
        self.selected_shape_idx = None;
        self.shapes.clear();
    }

    /// Starts a shape of the given kind, whatever was being drawn.
    pub fn new_shape(&mut self, shape_type: ShapeType)
        requires
            old(self).wf(),
        ensures
            final(self).wf(),
            final(self)@ == old(self)@.with_new_shape(shape_type),
    {
        self.shapes.push(Shape::new(shape_type));
        self.current_shape_idx = self.shapes.len() - 1;
        self.selected_shape_idx = Some(self.current_shape_idx);
        self.highlighted_shape_idx = None;
    }

    /// Completes the selected shape, if both its points are set.
    pub fn submit_shape(&mut self)
        requires
            old(self).wf(),
        ensures
            final(self).wf(),
            final(self)@ == old(self)@.submitted(),
    {
        if let Some(idx) = self.selected_shape_idx {
            let shape = self.shapes[idx];
            if shape.get_end().is_some() && shape.get_origin().is_some() {
                let mut done = shape;
                done.set_state(ShapeState::Complete);
                self.shapes[idx] = done;
            }
        }
    }

    /// The place of the first shape that a pointer at `(x, y)` hits.
    fn find_first_hit(&self, x: i32, y: i32) -> (found: Option<usize>)
        ensures
            first_hit(self.shapes@, x as int, y as int) == match found {
                Some(i) => Some(i as int),
                None => None,
            },
            found matches Some(i) ==> i < self.shapes@.len(),
    {
        let mut i: usize = 0;
        while i < self.shapes.len()
            invariant
                i <= self.shapes@.len(),
                forall|j: int| 0 <= j < i ==> !(#[trigger] self.shapes@[j]).hit(x as int, y as int),
            decreases self.shapes@.len() - i,
        {
            if self.shapes[i].contains(x, y) {
                proof {
                    lemma_first_hit(self.shapes@, x as int, y as int);
                    lemma_first_hit_unique(
                        self.shapes@,
                        x as int,
                        y as int,
                        Some(i as int),
                        first_hit(self.shapes@, x as int, y as int),
                    );
                }
                return Some(i);
            }
            i = i + 1;
        }
        proof {
            lemma_first_hit(self.shapes@, x as int, y as int);
            lemma_first_hit_unique(
                self.shapes@,
                x as int,
                y as int,
                None,
                first_hit(self.shapes@, x as int, y as int),
            );
        }
        None
    }

    /// Highlights the first shape that a pointer at `(x, y)` hits, and
    /// returns it. Where the pointer hits none, nothing is highlighted.
    pub fn intersect_and_highlight(&mut self, x: i32, y: i32) -> (hit: Option<&Shape>)
        requires
            old(self).wf(),
        ensures
            final(self).wf(),
            final(self)@ == old(self)@.highlighted_at(x as int, y as int),
            match hit {
                Some(shape) => final(self)@.shape_at(final(self)@.highlighted) == Some(*shape),
                None => final(self)@.highlighted is None,
            },
    {
        let found = self.find_first_hit(x, y);
        self.highlighted_shape_idx = found;
        match found {
            Some(i) => Some(&self.shapes[i]),
            None => None,
        }
    }

    /// Selects the first shape that a pointer at `(x, y)` hits, and returns
    /// it. Where the pointer hits none, nothing is selected.
    pub fn intersect_and_select(&mut self, x: i32, y: i32) -> (hit: Option<&Shape>)
        requires
            old(self).wf(),
        ensures
            final(self).wf(),
            final(self)@ == old(self)@.selected_at(x as int, y as int),
            match hit {
                Some(shape) => final(self)@.shape_at(final(self)@.selected) == Some(*shape),
                None => final(self)@.selected is None,
            },
    {
        let found = self.find_first_hit(x, y);
        self.selected_shape_idx = found;
        match found {
            Some(i) => Some(&self.shapes[i]),
            None => None,
        }
    }

    /// The highlighted shape, if there is one.
    pub fn get_highlighted(&self) -> (shape: Option<&Shape>)
        requires
            self.wf(),
        ensures
            match shape {
                Some(s) => self@.shape_at(self@.highlighted) == Some(*s),
                None => self@.highlighted is None,
            },
    {
        match self.highlighted_shape_idx {
            Some(idx) => Some(&self.shapes[idx]),
            None => None,
        }
    }

    /// The selected shape, if there is one.
    pub fn get_selected(&self) -> (shape: Option<&Shape>)
        requires
            self.wf(),
        ensures
            match shape {
                Some(s) => self@.shape_at(self@.selected) == Some(*s),
                None => self@.selected is None,
            },
    {
        match self.selected_shape_idx {
            Some(idx) => Some(&self.shapes[idx]),
            None => None,
        }
    }
}

impl ShapeStorage {
    /// Adds a fresh shape at the end and makes it current.
    fn create_shape(&mut self, shape_type: ShapeType)
        requires
            old(self).wf(),
        ensures
            final(self).wf(),
            final(self)@ == (StorageModel {
                shapes: old(self)@.shapes.push(Shape::fresh(shape_type)),
                current: Some(old(self)@.shapes.len() as int),
                ..old(self)@
            }),
    {
        self.shapes.push(Shape::new(shape_type));
        self.current_shape_idx = self.shapes.len() - 1;
    }

    /// The shape that takes the next point of a drawing of the given kind.
    /// While the current shape is of that kind and not complete, it is that
    /// shape, which is then also selected; otherwise it is a new shape at the
    /// end, which is then current. What the caller does to the shape through
    /// the reference is done to the shape in the collection.
    pub fn get_or_create_shape(&mut self, shape_type: ShapeType) -> (shape: &mut Shape)
        requires
            old(self).wf(),
        ensures
            final(self).wf(),
            old(self)@.ready_for(shape_type).current matches Some(c) && {
                &&& *shape == old(self)@.ready_for(shape_type).shapes[c]
                &&& final(self)@ == old(self)@.ready_for(shape_type).with_shape(c, *final(shape))
            },
    {
        let goes_on: bool = if self.shapes.len() == 0 {
            false
        } else {
            let current = &self.shapes[self.current_shape_idx];
            current.get_type() == shape_type && current.get_state() != ShapeState::Complete
        };
        if goes_on {
            self.selected_shape_idx = Some(self.current_shape_idx);
        } else {
            self.create_shape(shape_type);
        }
        &mut self.shapes[self.current_shape_idx]
    }

    /// The shape that is being drawn, if there is any shape. What the caller
    /// does to the shape through the reference is done to the shape in the
    /// collection.
    pub fn get_current_mut(&mut self) -> (shape: Option<&mut Shape>)
        requires
            old(self).wf(),
        ensures
            final(self).wf(),
            match shape {
                Some(s) => old(self)@.current matches Some(c) && {
                    &&& *s == old(self)@.shapes[c]
                    &&& final(self)@ == old(self)@.with_shape(c, *final(s))
                },
                None => old(self)@.current is None && final(self)@ == old(self)@,
            },
    {
        if self.shapes.len() == 0 {
            return None;
        }
        Some(&mut self.shapes[self.current_shape_idx])
    }

    /// The selected shape, if there is one. What the caller does to the shape
    /// through the reference is done to the shape in the collection.
    pub fn get_selected_mut(&mut self) -> (shape: Option<&mut Shape>)
        requires
            old(self).wf(),
        ensures
            final(self).wf(),
            match shape {
                Some(s) => old(self)@.selected matches Some(i) && {
                    &&& *s == old(self)@.shapes[i]
                    &&& final(self)@ == old(self)@.with_shape(i, *final(s))
                },
                None => old(self)@.selected is None && final(self)@ == old(self)@,
            },
    {
        match self.selected_shape_idx {
            Some(idx) => Some(&mut self.shapes[idx]),
            None => None,
        }
    }
}

impl ShapeStorage {
    /// Writes the collection as a document.
    pub fn to_document(&self) -> (doc: Json)
        ensures
            doc@ == self@.document(),
    {
        let mut items: Vec<Json> = Vec::new();
        let mut i: usize = 0;
        while i < self.shapes.len()
            invariant
                i <= self.shapes@.len(),
                items_model(items@) == documents(self.shapes@.take(i as int)),
            decreases self.shapes@.len() - i,
        {
            let doc = self.shapes[i].to_document();
            proof {
                lemma_items_model_push(items@, doc);
                assert(documents(self.shapes@.take(i + 1)) =~= documents(
                    self.shapes@.take(i as int),
                ).push(self.shapes@[i as int].document()));
            }
            items.push(doc);
            i = i + 1;
        }
        assert(self.shapes@.take(i as int) =~= self.shapes@);
        Json::Array(items)
    }

    /// The document of the collection as JSON text: an array with one shape
    /// document for each shape, in the order of the shapes.
    pub fn serialize_to_json(&self) -> (text: String)
        ensures
            text@ == text_of_json(self@.document()),
    {
        self.to_document().to_text()
    }

    /// Reads the shapes that a list of documents describes.
    pub fn decode_all(items: &Vec<Json>) -> (r: Result<Vec<Shape>, ShapeError>)
        ensures
            match decoded_all(items_model(items@)) {
                Ok(shapes) => r matches Ok(list) && list@ == shapes,
                Err(e) => r matches Err(f) && f == e,
            },
    {
        let ghost models = items_model(items@);
        proof {
            lemma_items_model(items@);
        }
        let mut shapes: Vec<Shape> = Vec::new();
        let mut i: usize = 0;
        while i < items.len()
            invariant
                i <= items@.len(),
                models == items_model(items@),
                models.len() == items@.len(),
                forall|k: int| 0 <= k < items@.len() ==> (#[trigger] models[k]) == items@[k]@,
                decoded_all(models.take(i as int)) == Ok::<Seq<Shape>, ShapeError>(shapes@),
            decreases items@.len() - i,
        {
            proof {
                lemma_decoded_all_push(models.take(i as int), models[i as int]);
                assert(models.take(i + 1) =~= models.take(i as int).push(models[i as int]));
            }
            match Shape::decode(&items[i]) {
                Ok(shape) => {
                    shapes.push(shape);
                },
                Err(e) => {
                    proof {
                        lemma_decoded_all_fails_on(models, i + 1);
                    }
                    return Err(e);
                },
            }
            i = i + 1;
        }
        assert(models.take(i as int) =~= models);
        Ok(shapes)
    }

    /// Loads a document: adds the shapes that it describes at the end. A
    /// document that is no array of shape documents changes nothing.
    pub fn add_document(&mut self, doc: &Json) -> (r: Result<(), ShapeError>)
        requires
            old(self).wf(),
        ensures
            final(self).wf(),
            match old(self)@.with_document(doc@) {
                Ok(storage) => r is Ok && final(self)@ == storage,
                Err(e) => r == Err::<(), ShapeError>(e) && final(self)@ == old(self)@,
            },
    {
        let items = match doc {
            Json::Array(items) => items,
            _ => {
                return Err(ShapeError::MalformedDocument);
            },
        };
        match ShapeStorage::decode_all(items) {
            Ok(mut shapes) => {
                if self.shapes.len() == 0 {
                    self.current_shape_idx = 0;
                }
                self.shapes.append(&mut shapes);
                Ok(())
            },
            Err(e) => Err(e),
        }
    }

    /// Loads a JSON text: adds the shapes that it describes at the end. The
    /// text has to be a JSON array of shape documents; if it is not, or if
    /// one of the documents describes no shape, nothing changes.
    pub fn deserialize_from_json(&mut self, json: &str) -> (r: Result<(), ShapeError>)
        requires
            old(self).wf(),
        ensures
            final(self).wf(),
            match old(self)@.with_text(json@) {
                Ok(storage) => r is Ok && final(self)@ == storage,
                Err(e) => r == Err::<(), ShapeError>(e) && final(self)@ == old(self)@,
            },
    {
        match Json::from_text(json) {
            Ok(doc) => self.add_document(&doc),
            Err(e) => Err(e),
        }
    }
}

/// Once a beginning of a list of documents describes no shapes, the whole
/// list describes none, with the same error.
pub proof fn lemma_decoded_all_fails_on(items: Seq<JsonModel>, k: int)
    requires
        0 <= k <= items.len(),
        decoded_all(items.take(k)) is Err,
    ensures
        decoded_all(items) == decoded_all(items.take(k)),
    decreases items.len() - k,
{
    if k == items.len() {
        assert(items.take(k) =~= items);
    } else {
        lemma_decoded_all_push(items.take(k), items[k]);
        assert(items.take(k + 1) =~= items.take(k).push(items[k]));
        lemma_decoded_all_fails_on(items, k + 1);
    }
}

} // verus!
