//! Jokes: what one holds, how one is read from a document, and how one is
//! written out.

use crate::error::{viewed, Field, JokeError};
use crate::json::{json_doc, read_bool, read_i64, read_member, read_text, required_bool,
    required_i64, required_member, required_text, Json};
use crate::render::{ferris_frame, ferris_say};
use crate::text::{bool_str, bool_text, decimal, decimal_string, is_space, occurs_at, occurs_in,
    same_text, trim, trimmed};
use vstd::prelude::*;

verus! {

/// The six content markers of a joke, as plain values.
pub struct JokeFlagsView {
    pub nsfw: bool,
    pub religious: bool,
    pub political: bool,
    pub racist: bool,
    pub sexist: bool,
    pub explicit: bool,
}

/// The six content markers of a joke.
pub struct JokeFlags {
    nsfw: bool,
    religious: bool,
    political: bool,
    racist: bool,
    sexist: bool,
    explicit: bool,
}

impl View for JokeFlags {
    type V = JokeFlagsView;

    closed spec fn view(&self) -> JokeFlagsView {
        JokeFlagsView {
            nsfw: self.nsfw,
            religious: self.religious,
            political: self.political,
            racist: self.racist,
            sexist: self.sexist,
            explicit: self.explicit,
        }
    }
}

/// The markers that a document gives: each of the six must stand in it as a
/// boolean. The first that does not, in the order in which they are named
/// here, decides the error.
pub open spec fn flags_of(doc: Json) -> Result<JokeFlagsView, JokeError> {
    match required_bool(doc, Field::Nsfw) {
        Err(e) => Err(e),
        Ok(nsfw) => match required_bool(doc, Field::Religious) {
            Err(e) => Err(e),
            Ok(religious) => match required_bool(doc, Field::Political) {
                Err(e) => Err(e),
                Ok(political) => match required_bool(doc, Field::Racist) {
                    Err(e) => Err(e),
                    Ok(racist) => match required_bool(doc, Field::Sexist) {
                        Err(e) => Err(e),
                        Ok(sexist) => match required_bool(doc, Field::Explicit) {
                            Err(e) => Err(e),
                            Ok(explicit) => Ok(
                                JokeFlagsView {
                                    nsfw,
                                    religious,
                                    political,
                                    racist,
                                    sexist,
                                    explicit,
                                },
                            ),
                        },
                    },
                },
            },
        },
    }
}

/// The markers written out, one to a line, each line but the first indented
/// by a tab.
pub open spec fn flags_text(flags: JokeFlagsView) -> Seq<char> {
    "nsfw: "@ + bool_text(flags.nsfw) + ",\n\treligious: "@ + bool_text(flags.religious)
        + ",\n\tpolitical: "@ + bool_text(flags.political) + ",\n\tracist: "@ + bool_text(
        flags.racist,
    ) + ",\n\tsexist: "@ + bool_text(flags.sexist) + ",\n\texplicit: "@ + bool_text(
        flags.explicit,
    ) + ",\n"@
}

impl JokeFlags {
    /// The markers of a joke that nothing is known of, as plain values.
    pub open spec fn empty_view() -> JokeFlagsView {
        JokeFlagsView {
            nsfw: false,
            religious: false,
            political: false,
            racist: false,
            sexist: false,
            explicit: false,
        }
    }

    /// The markers of a joke that nothing is known of: all six are off.
    pub fn empty() -> (flags: JokeFlags)
        ensures
            flags@ == JokeFlags::empty_view(),
    {
        JokeFlags {
            nsfw: false,
            religious: false,
            political: false,
            racist: false,
            sexist: false,
            explicit: false,
        }
    }

    /// Reads the markers from a document.
    pub fn new(json_data: serde_json::Value) -> (made: Result<JokeFlags, JokeError>)
        ensures
            viewed(made) == flags_of(json_doc(json_data)),
    {
        JokeFlags::read(&json_data)
    }

    /// Reads the markers from a document that stays with the caller.
    pub fn read(json_data: &serde_json::Value) -> (made: Result<JokeFlags, JokeError>)
        ensures
            viewed(made) == flags_of(json_doc(*json_data)),
    {
        let nsfw = read_bool(json_data, Field::Nsfw)?;
        let religious = read_bool(json_data, Field::Religious)?;
        let political = read_bool(json_data, Field::Political)?;
        let racist = read_bool(json_data, Field::Racist)?;
        let sexist = read_bool(json_data, Field::Sexist)?;
        let explicit = read_bool(json_data, Field::Explicit)?;
        Ok(JokeFlags { nsfw, religious, political, racist, sexist, explicit })
    }

    /// Whether the joke is not safe for work.
    pub fn nsfw(&self) -> (b: bool)
        ensures
            b == self@.nsfw,
    {
        self.nsfw
    }

    /// Whether the joke is about religion.
    pub fn religious(&self) -> (b: bool)
        ensures
            b == self@.religious,
    {
        self.religious
    }

    /// Whether the joke is about politics.
    pub fn political(&self) -> (b: bool)
        ensures
            b == self@.political,
    {
        self.political
    }

    /// Whether the joke is racist.
    pub fn racist(&self) -> (b: bool)
        ensures
            b == self@.racist,
    {
        self.racist
    }

    /// Whether the joke is sexist.
    pub fn sexist(&self) -> (b: bool)
        ensures
            b == self@.sexist,
    {
        self.sexist
    }

    /// Whether the joke is explicit.
    pub fn explicit(&self) -> (b: bool)
        ensures
            b == self@.explicit,
    {
        self.explicit
    }

    /// Writes the markers out by name.
    pub fn to_string(&self) -> (s: String)
        ensures
            s@ == flags_text(self@),
    {
        let mut s = "nsfw: ".to_owned();
        s.append(bool_str(self.nsfw));
        s.append(",\n\treligious: ");
        s.append(bool_str(self.religious));
        s.append(",\n\tpolitical: ");
        s.append(bool_str(self.political));
        s.append(",\n\tracist: ");
        s.append(bool_str(self.racist));
        s.append(",\n\tsexist: ");
        s.append(bool_str(self.sexist));
        s.append(",\n\texplicit: ");
        s.append(bool_str(self.explicit));
        s.append(",\n");
        s
    }
}

/// The body of a joke, as plain values.
pub enum JokeDataView {
    Single { joke: Seq<char> },
    TwoPart { setup: Seq<char>, delivery: Seq<char> },
}

/// The body of a joke: told in one piece, or as a setup and its delivery.
pub enum JokeData {
    Single { joke: String },
    TwoPart { setup: String, delivery: String },
}

impl Clone for JokeData {
    fn clone(&self) -> (copy: JokeData)
        ensures
            copy@ == self@,
    {
        match self {
            JokeData::Single { joke } => JokeData::Single { joke: joke.clone() },
            JokeData::TwoPart { setup, delivery } => JokeData::TwoPart {
                setup: setup.clone(),
                delivery: delivery.clone(),
            },
        }
    }
}

impl View for JokeData {
    type V = JokeDataView;

    open spec fn view(&self) -> JokeDataView {
        match self {
            JokeData::Single { joke } => JokeDataView::Single { joke: joke@ },
            JokeData::TwoPart { setup, delivery } => JokeDataView::TwoPart {
                setup: setup@,
                delivery: delivery@,
            },
        }
    }
}

/// The body that stands in for one of a type that is not known.
pub open spec fn stand_in_body() -> JokeDataView {
    JokeDataView::Single { joke: "Your life"@ }
}

/// Whether a type, as a document spells it, names one of the two known
/// bodies. White space around the name does not count.
pub open spec fn known_type(joke_type: Seq<char>) -> bool {
    trimmed(joke_type) == "single"@ || trimmed(joke_type) == "twopart"@
}

/// The body that a document gives for a joke of the given type.
///
/// A known type asks for its own fields, and fails without them. A type that
/// is not known asks for nothing and gives [`stand_in_body`].
pub open spec fn data_of(doc: Json, joke_type: Seq<char>) -> Result<JokeDataView, JokeError> {
    if trimmed(joke_type) == "single"@ {
        match required_text(doc, Field::Joke) {
            Err(e) => Err(e),
            Ok(joke) => Ok(JokeDataView::Single { joke }),
        }
    } else if trimmed(joke_type) == "twopart"@ {
        match required_text(doc, Field::Setup) {
            Err(e) => Err(e),
            Ok(setup) => match required_text(doc, Field::Delivery) {
                Err(e) => Err(e),
                Ok(delivery) => Ok(JokeDataView::TwoPart { setup, delivery }),
            },
        }
    } else {
        Ok(stand_in_body())
    }
}

impl JokeData {
    /// Reads the body of a joke of the given type from a document.
    pub fn new(json_data: &serde_json::Value, joke_type: &str) -> (made: Result<
        JokeData,
        JokeError,
    >)
        ensures
            viewed(made) == data_of(json_doc(*json_data), joke_type@),
    {
        let tag = trim(joke_type);
        if same_text(tag, "single") {
            let joke = read_text(json_data, Field::Joke)?.to_owned();
            Ok(JokeData::Single { joke })
        } else if same_text(tag, "twopart") {
            let setup = read_text(json_data, Field::Setup)?.to_owned();
            let delivery = read_text(json_data, Field::Delivery)?.to_owned();
            Ok(JokeData::TwoPart { setup, delivery })
        } else {
            Ok(JokeData::Single { joke: "Your life".to_owned() })
        }
    }
}

/// A joke, as plain values.
pub struct JokeView {
    pub id: u32,
    pub category: Seq<char>,
    pub data: JokeDataView,
    pub flags: JokeFlagsView,
    pub safe: bool,
}

/// A joke: its number and category at the source, its body, its content
/// markers, and whether the source calls it safe.
pub struct Joke {
    id: u32,
    category: String,
    data: JokeData,
    flags: JokeFlags,
    safe: bool,
}

impl View for Joke {
    type V = JokeView;

    closed spec fn view(&self) -> JokeView {
        JokeView {
            id: self.id,
            category: self.category@,
            data: self.data@,
            flags: self.flags@,
            safe: self.safe,
        }
    }
}

/// The number that a document gives: an integer that an unsigned 32-bit word
/// can hold.
pub open spec fn id_of(doc: Json) -> Result<u32, JokeError> {
    match required_i64(doc, Field::Id) {
        Err(e) => Err(e),
        Ok(n) => if 0 <= n <= u32::MAX {
            Ok(n as u32)
        } else {
            Err(JokeError::Invalid(Field::Id))
        },
    }
}

/// The category that a document gives: a string that is not empty.
pub open spec fn category_of(doc: Json) -> Result<Seq<char>, JokeError> {
    match required_text(doc, Field::Category) {
        Err(e) => Err(e),
        Ok(category) => if category.len() > 0 {
            Ok(category)
        } else {
            Err(JokeError::Invalid(Field::Category))
        },
    }
}

/// The joke that a document gives.
///
/// The fields are read in this order: number, category, type, the body that
/// the type asks for, markers, safety. The first that cannot be read decides
/// the error, and nothing is made of the others.
pub open spec fn joke_of(doc: Json) -> Result<JokeView, JokeError> {
    match id_of(doc) {
        Err(e) => Err(e),
        Ok(id) => match category_of(doc) {
            Err(e) => Err(e),
            Ok(category) => match required_text(doc, Field::Type) {
                Err(e) => Err(e),
                Ok(joke_type) => match data_of(doc, joke_type) {
                    Err(e) => Err(e),
                    Ok(data) => match required_member(doc, Field::Flags) {
                        Err(e) => Err(e),
                        Ok(marks) => match flags_of(marks) {
                            Err(e) => Err(e),
                            Ok(flags) => match required_bool(doc, Field::Safe) {
                                Err(e) => Err(e),
                                Ok(safe) => Ok(JokeView { id, category, data, flags, safe }),
                            },
                        },
                    },
                },
            },
        },
    }
}

/// What there is to say of a document whose type is not known.
///
/// Where the number, the category and the type can be read and the type is
/// not known, the remark names the type as the document spells it. There is
/// none where the type is known, and none where reading fails before the
/// body is reached.
pub open spec fn notice_of(doc: Json) -> Option<Seq<char>> {
    match (id_of(doc), category_of(doc), required_text(doc, Field::Type)) {
        (Ok(_), Ok(_), Ok(joke_type)) => if known_type(joke_type) {
            None
        } else {
            Some("There's an hidden type!!! "@ + joke_type)
        },
        _ => None,
    }
}

/// The body written out by name, under the name of its type.
pub open spec fn data_text(data: JokeDataView) -> Seq<char> {
    match data {
        JokeDataView::Single { joke } => "type: single,\njoke: "@ + joke + ",\n"@,
        JokeDataView::TwoPart { setup, delivery } => "type: twopart,\nsetup: "@ + setup
            + ",\ndelivery: "@ + delivery + ",\n"@,
    }
}

/// The joke written out field by field, each under its name.
pub open spec fn joke_text(joke: JokeView) -> Seq<char> {
    "id: "@ + decimal(joke.id as nat) + ",\ncategory: "@ + joke.category + ",\n"@ + data_text(
        joke.data,
    ) + "flags: {\n\t"@ + flags_text(joke.flags) + "},\nsafe: "@ + bool_text(joke.safe)
        + ",\n"@
}

/// The joke as it is told: a joke in one piece as it stands, a joke in two
/// parts as the setup, a line break, and the delivery.
pub open spec fn full_text(data: JokeDataView) -> Seq<char> {
    match data {
        JokeDataView::Single { joke } => joke,
        JokeDataView::TwoPart { setup, delivery } => setup + seq!['\n'] + delivery,
    }
}

/// The line that announces a joke by its category and its number.
pub open spec fn introduction_text(joke: JokeView) -> Seq<char> {
    "Here's a "@ + joke.category + " joke for you.\n Joke number "@ + decimal(joke.id as nat)
        + "..."@
}

impl Joke {
    #[verifier::type_invariant]
    spec fn well_formed(&self) -> bool {
        self.category@.len() > 0
    }

    /// The joke that stands in where none could be fetched, as plain values.
    pub open spec fn empty_view() -> JokeView {
        JokeView {
            id: 0,
            category: "Fake"@,
            data: JokeDataView::Single { joke: "My life"@ },
            flags: JokeFlags::empty_view(),
            safe: true,
        }
    }

    /// Reads what stands before the body: the number, the category, and the
    /// type as the document spells it.
    fn head<'a>(json_data: &'a serde_json::Value) -> (read: Result<
        (u32, String, &'a str),
        JokeError,
    >)
        ensures
            match read {
                Ok((id, category, joke_type)) => {
                    &&& id_of(json_doc(*json_data)) == Ok::<u32, JokeError>(id)
                    &&& category_of(json_doc(*json_data)) == Ok::<Seq<char>, JokeError>(
                        category@,
                    )
                    &&& required_text(json_doc(*json_data), Field::Type) == Ok::<
                        Seq<char>,
                        JokeError,
                    >(joke_type@)
                },
                Err(e) => {
                    ||| id_of(json_doc(*json_data)) == Err::<u32, JokeError>(e)
                    ||| {
                        &&& id_of(json_doc(*json_data)) is Ok
                        &&& category_of(json_doc(*json_data)) == Err::<Seq<char>, JokeError>(e)
                    }
                    ||| {
                        &&& id_of(json_doc(*json_data)) is Ok
                        &&& category_of(json_doc(*json_data)) is Ok
                        &&& required_text(json_doc(*json_data), Field::Type) == Err::<
                            Seq<char>,
                            JokeError,
                        >(e)
                    }
                },
            },
    {
        let id_value = read_i64(json_data, Field::Id)?;
        let id = match u32::try_from(id_value) {
            Ok(id) => id,
            Err(_) => {
                return Err(JokeError::Invalid(Field::Id));
            },
        };
        let category = read_text(json_data, Field::Category)?.to_owned();
        if category.as_str().is_empty() {
            return Err(JokeError::Invalid(Field::Category));
        }
        let joke_type = read_text(json_data, Field::Type)?;
        Ok((id, category, joke_type))
    }

    /// Reads a joke from a document.
    pub fn new(json_data: serde_json::Value) -> (made: Result<Joke, JokeError>)
        ensures
            viewed(made) == joke_of(json_doc(json_data)),
    {
        let (id, category, joke_type) = Joke::head(&json_data)?;
        let data = JokeData::new(&json_data, joke_type)?;
        let flags_data = read_member(&json_data, Field::Flags)?;
        let flags = JokeFlags::read(flags_data)?;
        let safe = read_bool(&json_data, Field::Safe)?;
        Ok(Joke { id, category, data, flags, safe })
    }

    /// What there is to say of a document whose type is not known: the
    /// remark, where reading gets as far as the type and finds one that is
    /// not known, and nothing otherwise.
    pub fn hidden_type_notice(json_data: &serde_json::Value) -> (notice: Option<String>)
        ensures
            notice.deep_view() == notice_of(json_doc(*json_data)),
    {
        match Joke::head(json_data) {
            Ok((_, _, joke_type)) => {
                let tag = trim(joke_type);
                if same_text(tag, "single") || same_text(tag, "twopart") {
                    None
                } else {
                    let mut notice = "There's an hidden type!!! ".to_owned();
                    notice.append(joke_type);
                    Some(notice)
                }
            },
            Err(_) => None,
        }
    }

    /// A joke that stands in where none could be fetched.
    pub fn empty() -> (joke: Joke)
        ensures
            joke@ == Joke::empty_view(),
    {
        proof {
            reveal_strlit("Fake");
        }
        Joke {
            id: 0,
            category: "Fake".to_owned(),
            data: JokeData::Single { joke: "My life".to_owned() },
            flags: JokeFlags::empty(),
            safe: true,
        }
    }

    /// The number of the joke at its source.
    pub fn id(&self) -> (id: u32)
        ensures
            id == self@.id,
    {
        self.id
    }

    /// The category of the joke, which is never empty.
    pub fn category(&self) -> (category: &str)
        ensures
            category@ == self@.category,
            category@.len() > 0,
    {
        proof {
            use_type_invariant(self);
        }
        self.category.as_str()
    }

    /// The body of the joke.
    pub fn data(&self) -> (data: &JokeData)
        ensures
            data@ == self@.data,
    {
        &self.data
    }

    /// The content markers of the joke.
    pub fn flags(&self) -> (flags: &JokeFlags)
        ensures
            flags@ == self@.flags,
    {
        &self.flags
    }

    /// Whether the source calls the joke safe.
    pub fn safe(&self) -> (safe: bool)
        ensures
            safe == self@.safe,
    {
        self.safe
    }

    /// Writes the joke out field by field.
    pub fn to_string(&self) -> (s: String)
        ensures
            s@ == joke_text(self@),
    {
        let mut s = "id: ".to_owned();
        s.append(decimal_string(self.id).as_str());
        s.append(",\ncategory: ");
        s.append(self.category.as_str());
        s.append(",\n");
        let body = match &self.data {
            JokeData::Single { joke } => {
                let mut body = "type: single,\njoke: ".to_owned();
                body.append(joke.as_str());
                body.append(",\n");
                body
            },
            JokeData::TwoPart { setup, delivery } => {
                let mut body = "type: twopart,\nsetup: ".to_owned();
                body.append(setup.as_str());
                body.append(",\ndelivery: ");
                body.append(delivery.as_str());
                body.append(",\n");
                body
            },
        };
        s.append(body.as_str());
        s.append("flags: {\n\t");
        s.append(self.flags.to_string().as_str());
        s.append("},\nsafe: ");
        s.append(bool_str(self.safe));
        s.append(",\n");
        s
    }

    /// The joke as it is told.
    pub fn full_joke(&self) -> (s: String)
        ensures
            s@ == full_text(self@.data),
    {
        match &self.data {
            JokeData::Single { joke } => joke.clone(),
            JokeData::TwoPart { setup, delivery } => {
                proof {
                    reveal_strlit("\n");
                }
                let mut s = setup.clone();
                s.append("\n");
                s.append(delivery.as_str());
                assert(s@ =~= setup@ + seq!['\n'] + delivery@);
                s
            },
        }
    }

    /// The line that announces the joke.
    pub fn introduction(&self) -> (s: String)
        ensures
            s@ == introduction_text(self@),
    {
        let mut s = "Here's a ".to_owned();
        s.append(self.category.as_str());
        s.append(" joke for you.\n Joke number ");
        s.append(decimal_string(self.id).as_str());
        s.append("...");
        s
    }

    /// The two frames that present the joke, in the order in which they are
    /// shown: the announcement, then the joke as it is told.
    pub fn ferris_delivery(&self) -> (frames: (Vec<u8>, Vec<u8>))
        ensures
            frames.0@ == ferris_frame(
                introduction_text(self@),
                introduction_text(self@).len(),
            ),
            frames.1@ == ferris_frame(full_text(self@.data), full_text(self@.data).len()),
    {
        let introduction = ferris_say(self.introduction());
        let joke = ferris_say(self.full_joke());
        (introduction, joke)
    }
}

/// Whether a field holds one of the six content markers.
pub open spec fn is_marker(field: Field) -> bool {
    ||| field == Field::Nsfw
    ||| field == Field::Religious
    ||| field == Field::Political
    ||| field == Field::Racist
    ||| field == Field::Sexist
    ||| field == Field::Explicit
}

/// Whether everything but the body of a joke can be read from a document:
/// the number, the category, the markers and the safety.
pub open spec fn rest_is_valid(doc: Json) -> bool {
    &&& id_of(doc) is Ok
    &&& category_of(doc) is Ok
    &&& required_member(doc, Field::Flags) matches Ok(marks) && flags_of(marks) is Ok
    &&& required_bool(doc, Field::Safe) is Ok
}

/// No markers are read from a document in which one of the six is missing
/// or is no boolean.
pub proof fn lemma_markers_need_all_six(doc: Json, field: Field)
    requires
        is_marker(field),
        required_bool(doc, field) is Err,
    ensures
        flags_of(doc) is Err,
{
}

/// No markers are read from a document that lacks the key of one of the six.
pub proof fn lemma_markers_fail_without_key(doc: Json, field: Field)
    requires
        is_marker(field),
        doc.member(field.key()) is None,
    ensures
        flags_of(doc) is Err,
{
}

/// A document that holds all six markers as booleans gives exactly those
/// values.
pub proof fn lemma_markers_round_trip(doc: Json, flags: JokeFlagsView)
    requires
        doc.member(Field::Nsfw.key()) == Some(Json::Bool(flags.nsfw)),
        doc.member(Field::Religious.key()) == Some(Json::Bool(flags.religious)),
        doc.member(Field::Political.key()) == Some(Json::Bool(flags.political)),
        doc.member(Field::Racist.key()) == Some(Json::Bool(flags.racist)),
        doc.member(Field::Sexist.key()) == Some(Json::Bool(flags.sexist)),
        doc.member(Field::Explicit.key()) == Some(Json::Bool(flags.explicit)),
    ensures
        flags_of(doc) == Ok::<JokeFlagsView, JokeError>(flags),
{
}

/// The two known type names have no white space round them, differ from one
/// another, and are known as they stand.
pub proof fn lemma_known_type_names()
    ensures
        trimmed("single"@) == "single"@,
        trimmed("twopart"@) == "twopart"@,
        "single"@ != "twopart"@,
        known_type("single"@),
        known_type("twopart"@),
{
    reveal_strlit("single");
    reveal_strlit("twopart");
    let single = "single"@;
    let twopart = "twopart"@;
    assert(!is_space(single.first()) && !is_space(single.last()));
    assert(!is_space(twopart.first()) && !is_space(twopart.last()));
    assert(single.len() != twopart.len());
}

/// A document of type `single` whose other fields are valid gives a joke
/// that is told exactly as its `joke` field stands.
pub proof fn lemma_single_is_told_as_it_stands(doc: Json, text: Seq<char>)
    requires
        rest_is_valid(doc),
        doc.member(Field::Type.key()) == Some(Json::Text("single"@)),
        doc.member(Field::Joke.key()) == Some(Json::Text(text)),
    ensures
        joke_of(doc) matches Ok(joke) && joke.data == (JokeDataView::Single { joke: text })
            && full_text(joke.data) == text,
{
    lemma_known_type_names();
}

/// A document of type `twopart` whose other fields are valid gives a joke
/// that is told as its setup, one line break, and its delivery, with nothing
/// before, between or after.
pub proof fn lemma_two_parts_are_joined_by_a_line_break(
    doc: Json,
    setup: Seq<char>,
    delivery: Seq<char>,
)
    requires
        rest_is_valid(doc),
        doc.member(Field::Type.key()) == Some(Json::Text("twopart"@)),
        doc.member(Field::Setup.key()) == Some(Json::Text(setup)),
        doc.member(Field::Delivery.key()) == Some(Json::Text(delivery)),
    ensures
        joke_of(doc) matches Ok(joke) && joke.data == (JokeDataView::TwoPart { setup, delivery })
            && full_text(joke.data) == setup + seq!['\n'] + delivery,
        (setup + seq!['\n'] + delivery).len() == setup.len() + 1 + delivery.len(),
{
    lemma_known_type_names();
}

/// A document whose type is not known, and whose other fields are valid,
/// gives a joke all the same: one in a single piece with the stand-in text,
/// whatever else the document holds.
pub proof fn lemma_unknown_type_gives_stand_in(doc: Json, joke_type: Seq<char>)
    requires
        rest_is_valid(doc),
        doc.member(Field::Type.key()) == Some(Json::Text(joke_type)),
        !known_type(joke_type),
    ensures
        joke_of(doc) matches Ok(joke) && joke.data == stand_in_body(),
        notice_of(doc) == Some("There's an hidden type!!! "@ + joke_type),
{
}

/// A document of a known type that lacks a field of that type gives no joke,
/// however valid the rest is.
pub proof fn lemma_known_type_needs_its_fields(doc: Json, joke_type: Seq<char>)
    requires
        rest_is_valid(doc),
        doc.member(Field::Type.key()) == Some(Json::Text(joke_type)),
        known_type(joke_type),
        trimmed(joke_type) == "single"@ ==> required_text(doc, Field::Joke) is Err,
        trimmed(joke_type) == "twopart"@ ==> required_text(doc, Field::Setup) is Err
            || required_text(doc, Field::Delivery) is Err,
    ensures
        joke_of(doc) is Err,
{
    lemma_known_type_names();
}

/// A document whose number is an integer below zero or above what 32 bits
/// hold gives no joke.
pub proof fn lemma_number_out_of_range_is_refused(doc: Json, n: int)
    requires
        doc.member(Field::Id.key()) == Some(Json::Integer(n)),
        n < 0 || n > u32::MAX,
    ensures
        joke_of(doc) == Err::<JokeView, JokeError>(JokeError::Invalid(Field::Id)),
{
}

/// Every joke that is read from a document has a category that is not empty.
pub proof fn lemma_category_is_never_empty(doc: Json)
    ensures
        joke_of(doc) matches Ok(joke) ==> joke.category.len() > 0,
{
}

/// The line that announces a joke holds the category of the joke and the
/// decimal digits of its number.
pub proof fn lemma_introduction_names_category_and_number(joke: JokeView)
    ensures
        occurs_in(joke.category, introduction_text(joke)),
        occurs_in(decimal(joke.id as nat), introduction_text(joke)),
{
    let line = introduction_text(joke);
    let number = decimal(joke.id as nat);
    let before_category = "Here's a "@;
    let before_number = before_category + joke.category + " joke for you.\n Joke number "@;
    let category_at = before_category.len() as int;
    let number_at = before_number.len() as int;
    assert(line.subrange(category_at, category_at + joke.category.len()) =~= joke.category);
    assert(occurs_at(joke.category, line, category_at));
    assert(line.subrange(number_at, number_at + number.len()) =~= number);
    assert(occurs_at(number, line, number_at));
}

} // verus!
