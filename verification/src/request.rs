//! The requests that a worker sends to the shared server, as JSON objects.

use vstd::prelude::*;

verus! {

/// Declares [`serde_json::Value`]; nothing is known of what is inside.
#[verifier::external_type_specification]
#[verifier::external_body]
pub struct ExJsonValue(serde_json::Value);

/// Declares [`serde_json::Map`], the object of a JSON document.
#[verifier::external_type_specification]
#[verifier::external_body]
#[verifier::reject_recursive_types(K)]
#[verifier::reject_recursive_types(V)]
pub struct ExJsonObject<K, V>(serde_json::Map<K, V>);

/// What a member of a JSON object holds, as far as requests go.
pub ghost enum MemberView {
    /// A string.
    Text(Seq<char>),
    /// A number without a fraction.
    Integer(int),
    /// An array of arrays of strings.
    Rows(Seq<Seq<Seq<char>>>),
    /// Anything else.
    Other,
}

/// The members of a JSON object, by name.
pub uninterp spec fn json_members(
    object: serde_json::Map<String, serde_json::Value>,
) -> Map<Seq<char>, MemberView>;

/// The members of an empty object.
pub open spec fn no_members() -> Map<Seq<char>, MemberView> {
    Map::empty()
}

/// Calls [`serde_json::Map::new`]. Claims that the new object has no members.
#[verifier::external_body]
fn new_object() -> (object: serde_json::Map<String, serde_json::Value>)
    ensures
        json_members(object) == no_members(),
{
    serde_json::Map::new()
}

/// Calls [`serde_json::Map::insert`] with a string. Claims that the member `name`
/// then holds it, whatever it held before, and that no other member changes.
#[verifier::external_body]
fn insert_text(object: &mut serde_json::Map<String, serde_json::Value>, name: &str, text: &str)
    ensures
        json_members(*final(object)) == json_members(*old(object)).insert(
            name@,
            MemberView::Text(text@),
        ),
{
    object.insert(name.to_string(), serde_json::Value::from(text));
}

/// Calls [`serde_json::Map::insert`] with an unsigned number, and claims of it
/// what [`insert_text`] claims with a string.
#[verifier::external_body]
fn insert_unsigned(
    object: &mut serde_json::Map<String, serde_json::Value>,
    name: &str,
    number: u64,
)
    ensures
        json_members(*final(object)) == json_members(*old(object)).insert(
            name@,
            MemberView::Integer(number as int),
        ),
{
    object.insert(name.to_string(), serde_json::Value::from(number));
}

/// Calls [`serde_json::Map::insert`] with a signed number, and claims of it what
/// [`insert_text`] claims with a string.
#[verifier::external_body]
fn insert_signed(object: &mut serde_json::Map<String, serde_json::Value>, name: &str, number: i8)
    ensures
        json_members(*final(object)) == json_members(*old(object)).insert(
            name@,
            MemberView::Integer(number as int),
        ),
{
    object.insert(name.to_string(), serde_json::Value::from(number));
}

/// Calls [`serde_json::Map::insert`] with an array of arrays of strings, and
/// claims of it what [`insert_text`] claims with a string.
#[verifier::external_body]
fn insert_rows(
    object: &mut serde_json::Map<String, serde_json::Value>,
    name: &str,
    rows: Vec<Vec<String>>,
)
    ensures
        json_members(*final(object)) == json_members(*old(object)).insert(
            name@,
            MemberView::Rows(row_views(rows@)),
        ),
{
    object.insert(name.to_string(), serde_json::Value::from(rows));
}

/// The characters of a table of strings.
pub open spec fn row_views(rows: Seq<Vec<String>>) -> Seq<Seq<Seq<char>>> {
    rows.map_values(|row: Vec<String>| row@.map_values(|cell: String| cell@))
}

/// A table is seen cell by cell: as many rows, as many cells in each, each in its place.
pub proof fn table_is_seen_cell_by_cell(rows: Seq<Vec<String>>, i: int, j: int)
    requires
        0 <= i < rows.len(),
        0 <= j < rows[i]@.len(),
    ensures
        row_views(rows).len() == rows.len(),
        row_views(rows)[i].len() == rows[i]@.len(),
        row_views(rows)[i][j] == rows[i]@[j]@,
{
}

/// One request to the shared server.
#[derive(Clone, Debug, Eq, PartialEq)]
pub enum ServerRequest {
    /// Step to the next or the previous model.
    CycleModel { id: u64, direction: i8 },
    /// List the models on offer.
    GetModelCatalog { id: u64 },
    /// Use `model` from now on.
    SetModel { id: u64, model: String },
    /// Report the session so far.
    GetHistory { id: u64 },
    /// Use the reasoning effort `effort` from now on.
    SetReasoningEffort { id: u64, effort: String },
    /// Take a message of the user, with its images as pairs of strings.
    Message { id: u64, content: String, images: Vec<(String, String)> },
}

/// A [`ServerRequest`] with its strings as character sequences.
pub ghost enum RequestView {
    CycleModel { id: u64, direction: i8 },
    GetModelCatalog { id: u64 },
    SetModel { id: u64, model: Seq<char> },
    GetHistory { id: u64 },
    SetReasoningEffort { id: u64, effort: Seq<char> },
    Message { id: u64, content: Seq<char>, images: Seq<(Seq<char>, Seq<char>)> },
}

/// The characters of a sequence of images.
pub open spec fn image_views(images: Seq<(String, String)>) -> Seq<(Seq<char>, Seq<char>)> {
    images.map_values(|image: (String, String)| (image.0@, image.1@))
}

impl View for ServerRequest {
    type V = RequestView;

    open spec fn view(&self) -> RequestView {
        match *self {
            ServerRequest::CycleModel { id, direction } => RequestView::CycleModel { id, direction },
            ServerRequest::GetModelCatalog { id } => RequestView::GetModelCatalog { id },
            ServerRequest::SetModel { id, model } => RequestView::SetModel { id, model: model@ },
            ServerRequest::GetHistory { id } => RequestView::GetHistory { id },
            ServerRequest::SetReasoningEffort { id, effort } => RequestView::SetReasoningEffort {
                id,
                effort: effort@,
            },
            ServerRequest::Message { id, content, images } => RequestView::Message {
                id,
                content: content@,
                images: image_views(images@),
            },
        }
    }
}

/// One row of two strings for each image.
pub open spec fn image_rows(images: Seq<(Seq<char>, Seq<char>)>) -> Seq<Seq<Seq<char>>> {
    images.map_values(|image: (Seq<char>, Seq<char>)| seq![image.0, image.1])
}

impl RequestView {
    /// The number by which the server's reply names the request.
    pub open spec fn id(self) -> u64 {
        match self {
            RequestView::CycleModel { id, .. } => id,
            RequestView::GetModelCatalog { id } => id,
            RequestView::SetModel { id, .. } => id,
            RequestView::GetHistory { id } => id,
            RequestView::SetReasoningEffort { id, .. } => id,
            RequestView::Message { id, .. } => id,
        }
    }

    /// The request's name on the wire.
    pub open spec fn wire_name(self) -> Seq<char> {
        match self {
            RequestView::CycleModel { .. } => "cycle_model"@,
            RequestView::GetModelCatalog { .. } => "get_model_catalog"@,
            RequestView::SetModel { .. } => "set_model"@,
            RequestView::GetHistory { .. } => "get_history"@,
            RequestView::SetReasoningEffort { .. } => "set_reasoning_effort"@,
            RequestView::Message { .. } => "message"@,
        }
    }

    /// The members of the JSON object that stands for the request.
    pub open spec fn members(self) -> Map<Seq<char>, MemberView> {
        let common = map![
            "type"@ => MemberView::Text(self.wire_name()),
            "id"@ => MemberView::Integer(self.id() as int),
        ];
        match self {
            RequestView::CycleModel { direction, .. } => common.insert(
                "direction"@,
                MemberView::Integer(direction as int),
            ),
            RequestView::GetModelCatalog { .. } => common,
            RequestView::SetModel { model, .. } => common.insert("model"@, MemberView::Text(model)),
            RequestView::GetHistory { .. } => common,
            RequestView::SetReasoningEffort { effort, .. } => common.insert(
                "effort"@,
                MemberView::Text(effort),
            ),
            RequestView::Message { content, images, .. } => common.insert(
                "content"@,
                MemberView::Text(content),
            ).insert("images"@, MemberView::Rows(image_rows(images))),
        }
    }
}

fn rows_of_images(images: &Vec<(String, String)>) -> (rows: Vec<Vec<String>>)
    ensures
        row_views(rows@) == image_rows(image_views(images@)),
{
    let mut rows: Vec<Vec<String>> = Vec::new();
    for i in 0..images.len()
        invariant
            rows.len() == i,
            forall|j: int|
                0 <= j < i ==> (#[trigger] rows@[j])@ == seq![images@[j].0, images@[j].1],
    {
        let mut row: Vec<String> = Vec::new();
        row.push(images[i].0.clone());
        row.push(images[i].1.clone());
        rows.push(row);
    }
    proof {
        assert forall|j: int| 0 <= j < images.len() implies #[trigger] row_views(rows@)[j]
            == image_rows(image_views(images@))[j] by {
            assert(row_views(rows@)[j] =~= seq![images@[j].0@, images@[j].1@]);
        }
        assert(row_views(rows@) =~= image_rows(image_views(images@)));
    }
    rows
}

impl ServerRequest {
    /// The number by which the server's reply names the request.
    pub fn id(&self) -> (id: u64)
        ensures
            id == self@.id(),
    {
        match self {
            ServerRequest::CycleModel { id, .. } => *id,
            ServerRequest::GetModelCatalog { id } => *id,
            ServerRequest::SetModel { id, .. } => *id,
            ServerRequest::GetHistory { id } => *id,
            ServerRequest::SetReasoningEffort { id, .. } => *id,
            ServerRequest::Message { id, .. } => *id,
        }
    }

    /// The request's name on the wire.
    pub fn wire_name(&self) -> (name: &'static str)
        ensures
            name@ == self@.wire_name(),
    {
        match self {
            ServerRequest::CycleModel { .. } => "cycle_model",
            ServerRequest::GetModelCatalog { .. } => "get_model_catalog",
            ServerRequest::SetModel { .. } => "set_model",
            ServerRequest::GetHistory { .. } => "get_history",
            ServerRequest::SetReasoningEffort { .. } => "set_reasoning_effort",
            ServerRequest::Message { .. } => "message",
        }
    }

    /// The JSON object that stands for the request.
    pub fn to_json(&self) -> (object: serde_json::Map<String, serde_json::Value>)
        ensures
            json_members(object) == self@.members(),
    {
        let mut object = new_object();
        insert_text(&mut object, "type", self.wire_name());
        insert_unsigned(&mut object, "id", self.id());
        match self {
            ServerRequest::CycleModel { direction, .. } => {
                insert_signed(&mut object, "direction", *direction);
            },
            ServerRequest::GetModelCatalog { .. } => {},
            ServerRequest::SetModel { model, .. } => {
                insert_text(&mut object, "model", model.as_str());
            },
            ServerRequest::GetHistory { .. } => {},
            ServerRequest::SetReasoningEffort { effort, .. } => {
                insert_text(&mut object, "effort", effort.as_str());
            },
            ServerRequest::Message { content, images, .. } => {
                insert_text(&mut object, "content", content.as_str());
                insert_rows(&mut object, "images", rows_of_images(images));
            },
        }
        object
    }
}

/// The names that a request's members may have are all different.
proof fn member_names_differ()
    ensures
        "type"@ != "id"@,
        "type"@ != "direction"@,
        "type"@ != "model"@,
        "type"@ != "effort"@,
        "type"@ != "content"@,
        "type"@ != "images"@,
        "id"@ != "direction"@,
        "id"@ != "model"@,
        "id"@ != "effort"@,
        "id"@ != "content"@,
        "id"@ != "images"@,
        "content"@ != "images"@,
{
    reveal_strlit("type");
    reveal_strlit("id");
    reveal_strlit("direction");
    reveal_strlit("model");
    reveal_strlit("effort");
    reveal_strlit("content");
    reveal_strlit("images");
    assert("type"@.len() == 4);
    assert("id"@.len() == 2);
    assert("direction"@.len() == 9);
    assert("model"@.len() == 5);
    assert("effort"@.len() == 6);
    assert("content"@.len() == 7);
    assert("images"@.len() == 6);
}

/// The object that goes out says what was asked and nothing else: the kind of request, its
/// id, and what the request carries, each under its name.
pub proof fn json_says_what_was_asked(
    request: ServerRequest,
    object: serde_json::Map<String, serde_json::Value>,
)
    requires
        call_ensures(ServerRequest::to_json, (&request,), object),
    ensures
        ({
            let members = json_members(object);
            match request {
                ServerRequest::CycleModel { id, direction } => {
                    &&& members.dom() == set!["type"@, "id"@, "direction"@]
                    &&& members["type"@] == MemberView::Text("cycle_model"@)
                    &&& members["id"@] == MemberView::Integer(id as int)
                    &&& members["direction"@] == MemberView::Integer(direction as int)
                },
                ServerRequest::GetModelCatalog { id } => {
                    &&& members.dom() == set!["type"@, "id"@]
                    &&& members["type"@] == MemberView::Text("get_model_catalog"@)
                    &&& members["id"@] == MemberView::Integer(id as int)
                },
                ServerRequest::SetModel { id, model } => {
                    &&& members.dom() == set!["type"@, "id"@, "model"@]
                    &&& members["type"@] == MemberView::Text("set_model"@)
                    &&& members["id"@] == MemberView::Integer(id as int)
                    &&& members["model"@] == MemberView::Text(model@)
                },
                ServerRequest::GetHistory { id } => {
                    &&& members.dom() == set!["type"@, "id"@]
                    &&& members["type"@] == MemberView::Text("get_history"@)
                    &&& members["id"@] == MemberView::Integer(id as int)
                },
                ServerRequest::SetReasoningEffort { id, effort } => {
                    &&& members.dom() == set!["type"@, "id"@, "effort"@]
                    &&& members["type"@] == MemberView::Text("set_reasoning_effort"@)
                    &&& members["id"@] == MemberView::Integer(id as int)
                    &&& members["effort"@] == MemberView::Text(effort@)
                },
                ServerRequest::Message { id, content, images } => {
                    &&& members.dom() == set!["type"@, "id"@, "content"@, "images"@]
                    &&& members["type"@] == MemberView::Text("message"@)
                    &&& members["id"@] == MemberView::Integer(id as int)
                    &&& members["content"@] == MemberView::Text(content@)
                    &&& members["images"@] matches MemberView::Rows(rows) && rows.len()
                        == images@.len() && forall|i: int|
                        0 <= i < images@.len() ==> (#[trigger] rows[i]) == seq![
                            images@[i].0@,
                            images@[i].1@,
                        ]
                },
            }
        }),
{
    member_names_differ();
    let members = json_members(object);
    match request {
        ServerRequest::CycleModel { .. } => {
            assert(members.dom() =~= set!["type"@, "id"@, "direction"@]);
        },
        ServerRequest::GetModelCatalog { .. } => {
            assert(members.dom() =~= set!["type"@, "id"@]);
        },
        ServerRequest::SetModel { .. } => {
            assert(members.dom() =~= set!["type"@, "id"@, "model"@]);
        },
        ServerRequest::GetHistory { .. } => {
            assert(members.dom() =~= set!["type"@, "id"@]);
        },
        ServerRequest::SetReasoningEffort { .. } => {
            assert(members.dom() =~= set!["type"@, "id"@, "effort"@]);
        },
        ServerRequest::Message { images, .. } => {
            assert(members.dom() =~= set!["type"@, "id"@, "content"@, "images"@]);
            let rows = image_rows(image_views(images@));
            assert(members["images"@] == MemberView::Rows(rows));
            assert(rows.len() == images@.len());
            assert forall|i: int| 0 <= i < images@.len() implies (#[trigger] rows[i]) == seq![
                images@[i].0@,
                images@[i].1@,
            ] by {
                assert(image_views(images@)[i] == (images@[i].0@, images@[i].1@));
            }
        },
    }
}

/// A request is called by the id and the name that it goes out with.
pub proof fn request_goes_by_its_id_and_name(
    request: ServerRequest,
    id: u64,
    name: &'static str,
    object: serde_json::Map<String, serde_json::Value>,
)
    requires
        call_ensures(ServerRequest::id, (&request,), id),
        call_ensures(ServerRequest::wire_name, (&request,), name),
        call_ensures(ServerRequest::to_json, (&request,), object),
    ensures
        json_members(object)["id"@] == MemberView::Integer(id as int),
        json_members(object)["type"@] == MemberView::Text(name@),
        match request {
            ServerRequest::CycleModel { id: given, .. } => id == given,
            ServerRequest::GetModelCatalog { id: given } => id == given,
            ServerRequest::SetModel { id: given, .. } => id == given,
            ServerRequest::GetHistory { id: given } => id == given,
            ServerRequest::SetReasoningEffort { id: given, .. } => id == given,
            ServerRequest::Message { id: given, .. } => id == given,
        },
{
    member_names_differ();
}

/// Requests of different kinds have different names on the wire.
proof fn wire_names_differ(a: RequestView, b: RequestView)
    requires
        a.wire_name() == b.wire_name(),
    ensures
        a is CycleModel == b is CycleModel,
        a is GetModelCatalog == b is GetModelCatalog,
        a is SetModel == b is SetModel,
        a is GetHistory == b is GetHistory,
        a is SetReasoningEffort == b is SetReasoningEffort,
        a is Message == b is Message,
{
    reveal_strlit("cycle_model");
    reveal_strlit("get_model_catalog");
    reveal_strlit("set_model");
    reveal_strlit("get_history");
    reveal_strlit("set_reasoning_effort");
    reveal_strlit("message");
    assert("cycle_model"@.len() == 11);
    assert("get_model_catalog"@.len() == 17);
    assert("set_model"@.len() == 9);
    assert("get_history"@.len() == 11);
    assert("set_reasoning_effort"@.len() == 20);
    assert("message"@.len() == 7);
    assert("cycle_model"@[0] != "get_history"@[0]);
}

/// The server can tell what was asked: two requests that make the same JSON object
/// are the same request.
pub proof fn json_determines_request(a: RequestView, b: RequestView)
    requires
        a.members() == b.members(),
    ensures
        a == b,
{
    member_names_differ();
    assert(a.members()["type"@] == MemberView::Text(a.wire_name()));
    assert(b.members()["type"@] == MemberView::Text(b.wire_name()));
    wire_names_differ(a, b);
    assert(a.members()["id"@] == MemberView::Integer(a.id() as int));
    assert(b.members()["id"@] == MemberView::Integer(b.id() as int));
    match (a, b) {
        (
            RequestView::CycleModel { direction: x, .. },
            RequestView::CycleModel { direction: y, .. },
        ) => {
            assert(a.members()["direction"@] == MemberView::Integer(x as int));
            assert(b.members()["direction"@] == MemberView::Integer(y as int));
        },
        (RequestView::SetModel { model: x, .. }, RequestView::SetModel { model: y, .. }) => {
            assert(a.members()["model"@] == MemberView::Text(x));
            assert(b.members()["model"@] == MemberView::Text(y));
        },
        (
            RequestView::SetReasoningEffort { effort: x, .. },
            RequestView::SetReasoningEffort { effort: y, .. },
        ) => {
            assert(a.members()["effort"@] == MemberView::Text(x));
            assert(b.members()["effort"@] == MemberView::Text(y));
        },
        (
            RequestView::Message { content: x, images: p, .. },
            RequestView::Message { content: y, images: q, .. },
        ) => {
            assert(a.members()["content"@] == MemberView::Text(x));
            assert(b.members()["content"@] == MemberView::Text(y));
            assert(a.members()["images"@] == MemberView::Rows(image_rows(p)));
            assert(b.members()["images"@] == MemberView::Rows(image_rows(q)));
            rows_determine_images(p, q);
        },
        _ => {},
    }
}

proof fn rows_determine_images(a: Seq<(Seq<char>, Seq<char>)>, b: Seq<(Seq<char>, Seq<char>)>)
    requires
        image_rows(a) == image_rows(b),
    ensures
        a == b,
{
    assert(a.len() == image_rows(a).len());
    assert(b.len() == image_rows(b).len());
    assert forall|i: int| 0 <= i < a.len() implies a[i] == b[i] by {
        let row = seq![a[i].0, a[i].1];
        assert(image_rows(a)[i] == row);
        assert(image_rows(b)[i] == seq![b[i].0, b[i].1]);
        assert(row[0] == a[i].0 && row[1] == a[i].1);
    }
    assert(a =~= b);
}

} // verus!
