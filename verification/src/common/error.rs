//! The closed taxonomy of domain failures.
//!
//! A failure is one of eight kinds and carries a machine-readable code, a
//! message for people, named arguments and, where one failure led to
//! another, its cause.

use vstd::prelude::*;
use vstd::string::StringExecFns;
use crate::text::same_text;

verus! {

/// The code under which every unclassified failure is reported.
pub const INTERNAL_ERROR_CODE: &'static str = "internal";

/// The failures that the `validator` crate finds in a request.
#[verifier::external_type_specification]
#[verifier::external_body]
pub struct ExValidationErrors(validator::ValidationErrors);

/// What the failures of a request say of themselves, through the `Display`
/// of `validator::ValidationErrors`.
#[verifier::external_body]
fn validation_errors_text(errors: &validator::ValidationErrors) -> (text: String) {
    errors.to_string()
}

/// Named arguments of a failure: a finite map from names to values that
/// remembers the order in which the names came.
#[derive(Debug)]
pub struct ErrorArgs {
    entries: Vec<(String, String)>,
}

/// The names and values of `entries`, each by its chars.
pub open spec fn pairs_of(entries: Seq<(String, String)>) -> Seq<(Seq<char>, Seq<char>)> {
    entries.map_values(|e: (String, String)| (e.0@, e.1@))
}

/// No name occurs twice in `pairs`.
pub open spec fn distinct_names(pairs: Seq<(Seq<char>, Seq<char>)>) -> bool {
    forall|i: int, j: int|
        0 <= i < pairs.len() && 0 <= j < pairs.len() && i != j ==> (#[trigger] pairs[i]).0 != (
        #[trigger] pairs[j]).0
}

/// The map that `pairs` spells out, read from left to right.
pub open spec fn map_of(pairs: Seq<(Seq<char>, Seq<char>)>) -> Map<Seq<char>, Seq<char>>
    decreases pairs.len(),
{
    if pairs.len() == 0 {
        Map::empty()
    } else {
        map_of(pairs.drop_last()).insert(pairs.last().0, pairs.last().1)
    }
}

/// A name that stands at `i` in a list without repeated names maps to the
/// value beside it.
pub proof fn lemma_map_of_has(pairs: Seq<(Seq<char>, Seq<char>)>, i: int)
    requires
        distinct_names(pairs),
        0 <= i < pairs.len(),
    ensures
        map_of(pairs).dom().contains(pairs[i].0),
        map_of(pairs)[pairs[i].0] == pairs[i].1,
    decreases pairs.len(),
{
    let last = pairs.len() - 1;
    if i < last {
        let rest = pairs.drop_last();
        assert(rest[i] == pairs[i]);
        assert(pairs[last].0 != pairs[i].0);
        assert forall|a: int, b: int|
            0 <= a < rest.len() && 0 <= b < rest.len() && a != b implies (#[trigger] rest[a]).0 != (
        #[trigger] rest[b]).0 by {
            assert(rest[a] == pairs[a]);
            assert(rest[b] == pairs[b]);
        }
        lemma_map_of_has(rest, i);
    }
}

/// A name that stands nowhere in the list is not in the map.
pub proof fn lemma_map_of_lacks(pairs: Seq<(Seq<char>, Seq<char>)>, name: Seq<char>)
    requires
        forall|i: int| 0 <= i < pairs.len() ==> (#[trigger] pairs[i]).0 != name,
    ensures
        !map_of(pairs).dom().contains(name),
    decreases pairs.len(),
{
    if pairs.len() > 0 {
        let rest = pairs.drop_last();
        assert forall|i: int| 0 <= i < rest.len() implies (#[trigger] rest[i]).0 != name by {
            assert(rest[i] == pairs[i]);
        }
        assert(pairs.last() == pairs[pairs.len() - 1]);
        lemma_map_of_lacks(rest, name);
    }
}

/// Replacing the value beside a name, in a list without repeated names,
/// changes the map at that name and nowhere else.
pub proof fn lemma_map_of_update(pairs: Seq<(Seq<char>, Seq<char>)>, i: int, value: Seq<char>)
    requires
        distinct_names(pairs),
        0 <= i < pairs.len(),
    ensures
        map_of(pairs.update(i, (pairs[i].0, value))) == map_of(pairs).insert(pairs[i].0, value),
        distinct_names(pairs.update(i, (pairs[i].0, value))),
    decreases pairs.len(),
{
    let last = pairs.len() - 1;
    let name = pairs[i].0;
    let changed = pairs.update(i, (name, value));
    let rest = pairs.drop_last();
    assert forall|a: int, b: int|
        0 <= a < changed.len() && 0 <= b < changed.len() && a != b implies (
    #[trigger] changed[a]).0 != (#[trigger] changed[b]).0 by {
        assert(changed[a].0 == pairs[a].0);
        assert(changed[b].0 == pairs[b].0);
    }
    if i == last {
        assert(changed.drop_last() == rest);
        assert(map_of(changed) == map_of(pairs).insert(name, value));
    } else {
        assert(rest[i] == pairs[i]);
        assert forall|a: int, b: int|
            0 <= a < rest.len() && 0 <= b < rest.len() && a != b implies (#[trigger] rest[a]).0 != (
        #[trigger] rest[b]).0 by {
            assert(rest[a] == pairs[a]);
            assert(rest[b] == pairs[b]);
        }
        lemma_map_of_update(rest, i, value);
        assert(changed.drop_last() == rest.update(i, (name, value)));
        assert(changed.last() == pairs.last());
        assert(pairs[last].0 != pairs[i].0);
        assert(map_of(changed) == map_of(pairs).insert(name, value));
    }
}

/// The first place at which `name` stands in `pairs`.
pub open spec fn index_in(pairs: Seq<(Seq<char>, Seq<char>)>, name: Seq<char>) -> Option<int> {
    if exists|i: int| 0 <= i < pairs.len() && (#[trigger] pairs[i]).0 == name {
        Some(choose|i: int| 0 <= i < pairs.len() && (#[trigger] pairs[i]).0 == name)
    } else {
        None
    }
}

/// In a list without repeated names a name stands at one place only.
pub proof fn lemma_index_of_found(pairs: Seq<(Seq<char>, Seq<char>)>, name: Seq<char>, i: int)
    requires
        distinct_names(pairs),
        0 <= i < pairs.len(),
        pairs[i].0 == name,
    ensures
        index_in(pairs, name) == Some(i),
{
    let j = choose|j: int| 0 <= j < pairs.len() && (#[trigger] pairs[j]).0 == name;
    assert(pairs[j].0 == pairs[i].0);
}

/// A name that stands nowhere has no place.
pub proof fn lemma_index_of_none(pairs: Seq<(Seq<char>, Seq<char>)>, name: Seq<char>)
    requires
        forall|i: int| 0 <= i < pairs.len() ==> (#[trigger] pairs[i]).0 != name,
    ensures
        index_in(pairs, name) is None,
{
}

impl View for ErrorArgs {
    type V = Map<Seq<char>, Seq<char>>;

    open spec fn view(&self) -> Map<Seq<char>, Seq<char>> {
        map_of(self.pairs())
    }
}

impl ErrorArgs {
    #[verifier::type_invariant]
    spec fn names_are_distinct(&self) -> bool {
        distinct_names(pairs_of(self.entries@))
    }

    /// The names with their values, in the order in which the names came.
    pub closed spec fn pairs(&self) -> Seq<(Seq<char>, Seq<char>)> {
        pairs_of(self.entries@)
    }

    /// No arguments.
    pub fn new() -> (args: Self)
        ensures
            args@ == Map::<Seq<char>, Seq<char>>::empty(),
            args.pairs() == Seq::<(Seq<char>, Seq<char>)>::empty(),
    {
        let args = ErrorArgs { entries: Vec::new() };
        assert(pairs_of(args.entries@) == Seq::<(Seq<char>, Seq<char>)>::empty());
        args
    }

    /// How many names there are.
    pub fn len(&self) -> (n: usize)
        ensures
            n == self.pairs().len(),
    {
        self.entries.len()
    }

    /// Where `name` stands in the list, if it stands there.
    fn position(&self, name: &str) -> (at: Option<usize>)
        ensures
            match at {
                Some(i) => i < self.pairs().len() && self.pairs()[i as int].0 == name@,
                None => forall|i: int|
                    0 <= i < self.pairs().len() ==> (#[trigger] self.pairs()[i]).0 != name@,
            },
    {
        let mut i: usize = 0;
        while i < self.entries.len()
            invariant
                i <= self.entries.len(),
                forall|j: int| 0 <= j < i ==> (#[trigger] self.pairs()[j]).0 != name@,
            decreases self.entries.len() - i,
        {
            if same_text(self.entries[i].0.as_str(), name) {
                return Some(i);
            }
            i += 1;
        }
        None
    }

    /// The value of `name`, if the arguments have one.
    pub fn get(&self, name: &str) -> (value: Option<String>)
        ensures
            match value {
                Some(v) => self@.dom().contains(name@) && self@[name@] == v@,
                None => !self@.dom().contains(name@),
            },
    {
        proof {
            use_type_invariant(self);
        }
        match self.position(name) {
            Some(i) => {
                proof {
                    lemma_map_of_has(self.pairs(), i as int);
                }
                Some(self.entries[i].1.clone())
            },
            None => {
                proof {
                    lemma_map_of_lacks(self.pairs(), name@);
                }
                None
            },
        }
    }

    /// Gives `name` the value `value`. A name that is there keeps its
    /// place; a new one goes to the end.
    pub fn insert(&mut self, name: String, value: String)
        ensures
            final(self)@ == old(self)@.insert(name@, value@),
            match old(self).index_of(name@) {
                Some(i) => final(self).pairs() == old(self).pairs().update(i, (name@, value@)),
                None => final(self).pairs() == old(self).pairs().push((name@, value@)),
            },
    {
        proof {
            use_type_invariant(&*self);
        }
        let ghost before = self.pairs();
        let mut entries = self.entries();
        match self.position(name.as_str()) {
            Some(i) => {
                proof {
                    lemma_map_of_update(before, i as int, value@);
                    lemma_index_of_found(before, name@, i as int);
                }
                entries.set(i, (name, value));
                assert(pairs_of(entries@) == before.update(i as int, (name@, value@)));
            },
            None => {
                proof {
                    lemma_index_of_none(before, name@);
                }
                entries.push((name, value));
                let ghost after = pairs_of(entries@);
                assert(after == before.push((name@, value@)));
                assert(after.drop_last() == before);
                assert forall|a: int, b: int|
                    0 <= a < after.len() && 0 <= b < after.len() && a != b implies (
                #[trigger] after[a]).0 != (#[trigger] after[b]).0 by {
                    if a < before.len() {
                        assert(after[a] == before[a]);
                    }
                    if b < before.len() {
                        assert(after[b] == before[b]);
                    }
                }
            },
        }
        self.entries = entries;
    }

    /// The place of `name` in the list of pairs.
    pub open spec fn index_of(&self, name: Seq<char>) -> Option<int> {
        index_in(self.pairs(), name)
    }

    /// The names with their values, in the order in which the names came.
    pub fn entries(&self) -> (list: Vec<(String, String)>)
        ensures
            pairs_of(list@) == self.pairs(),
    {
        let mut list: Vec<(String, String)> = Vec::new();
        let mut i: usize = 0;
        while i < self.entries.len()
            invariant
                i <= self.entries.len(),
                pairs_of(list@) == self.pairs().subrange(0, i as int),
            decreases self.entries.len() - i,
        {
            let ghost before = pairs_of(list@);
            list.push((self.entries[i].0.clone(), self.entries[i].1.clone()));
            assert(pairs_of(list@) =~= before.push(self.pairs()[i as int]));
            assert(self.pairs().subrange(0, i + 1) =~= before.push(self.pairs()[i as int]));
            i += 1;
        }
        assert(self.pairs().subrange(0, self.pairs().len() as int) =~= self.pairs());
        list
    }
}

/// What a failure says of itself.
#[derive(Debug)]
pub struct ErrorData {
    /// The machine-readable code, never empty.
    pub code: String,
    /// The message for people.
    pub message: String,
    /// The named arguments, if any were given.
    pub args: Option<ErrorArgs>,
    /// The failure that led to this one, if one did.
    pub cause: Option<Box<ErrorCause>>,
}

/// The failure behind a failure: one of the domain's own, or one from
/// elsewhere, of which only its text is kept.
#[derive(Debug)]
pub enum ErrorCause {
    Domain(AppError),
    Opaque(String),
}

/// A domain failure: its kind and what it says of itself.
#[derive(Debug)]
pub enum AppError {
    NotFound(ErrorData),
    Internal(ErrorData),
    IllegalArgument(ErrorData),
    Unauthorized(ErrorData),
    UnprocessableEntity(ErrorData),
    Database(ErrorData),
    Validation(ErrorData),
    Service(ErrorData),
}

/// The text of a list of named arguments: each name and value in double
/// quotes, a colon between them, the pairs parted by commas.
pub open spec fn pairs_text(pairs: Seq<(Seq<char>, Seq<char>)>) -> Seq<char>
    decreases pairs.len(),
{
    if pairs.len() == 0 {
        Seq::empty()
    } else {
        let head = pairs_text(pairs.drop_last());
        let comma = if pairs.len() == 1 {
            Seq::empty()
        } else {
            ", "@
        };
        head + comma + "\""@ + pairs.last().0 + "\": \""@ + pairs.last().1 + "\""@
    }
}

/// The text of the arguments of a failure: `None`, or the pairs inside
/// `Some({` and `})`.
pub open spec fn args_text(args: Option<ErrorArgs>) -> Seq<char> {
    match args {
        None => "None"@,
        Some(a) => "Some({"@ + pairs_text(a.pairs()) + "})"@,
    }
}

impl Clone for ErrorArgs {
    fn clone(&self) -> (copy: Self)
        ensures
            copy@ == self@,
            copy.pairs() == self.pairs(),
    {
        proof {
            use_type_invariant(self);
        }
        let copy = ErrorArgs { entries: self.entries() };
        copy
    }
}

impl Clone for ErrorData {
    fn clone(&self) -> (copy: Self)
        ensures
            copy.same(self),
    {
        self.duplicate()
    }
}

impl Clone for ErrorCause {
    fn clone(&self) -> (copy: Self)
        ensures
            copy.same(self),
    {
        self.duplicate()
    }
}

impl Clone for AppError {
    fn clone(&self) -> (copy: Self)
        ensures
            copy.same(self),
    {
        self.duplicate()
    }
}

/// Whether two optional lists of arguments hold the same names and values
/// in the same order.
pub open spec fn same_args(a: Option<ErrorArgs>, b: Option<ErrorArgs>) -> bool {
    match (a, b) {
        (Some(x), Some(y)) => x.pairs() == y.pairs(),
        (None, None) => true,
        _ => false,
    }
}

impl ErrorCause {
    /// Whether two causes say the same: the same text, or domain failures
    /// that say the same.
    pub open spec fn same(&self, other: &ErrorCause) -> bool
        decreases self,
    {
        match (*self, *other) {
            (ErrorCause::Domain(a), ErrorCause::Domain(b)) => a.same(&b),
            (ErrorCause::Opaque(a), ErrorCause::Opaque(b)) => a@ == b@,
            _ => false,
        }
    }

    /// A copy of the cause, with a copy of all that it holds.
    pub fn duplicate(&self) -> (copy: Self)
        ensures
            copy.same(self),
        decreases self,
    {
        match self {
            ErrorCause::Domain(inner) => ErrorCause::Domain(inner.duplicate()),
            ErrorCause::Opaque(text) => ErrorCause::Opaque(text.clone()),
        }
    }
}

impl ErrorData {
    /// Whether two failures say the same of themselves: the same code,
    /// message and arguments, and causes that say the same.
    pub open spec fn same(&self, other: &ErrorData) -> bool
        decreases self,
    {
        &&& self.code@ == other.code@
        &&& self.message@ == other.message@
        &&& same_args(self.args, other.args)
        &&& match (self.cause, other.cause) {
            (Some(a), Some(b)) => a.same(&*b),
            (None, None) => true,
            _ => false,
        }
    }

    /// A copy of the failure's data, with a copy of its cause.
    pub fn duplicate(&self) -> (copy: Self)
        ensures
            copy.same(self),
        decreases self,
    {
        let args = match &self.args {
            Some(a) => Some(a.clone()),
            None => None,
        };
        let cause = match &self.cause {
            Some(c) => Some(Box::new((**c).duplicate())),
            None => None,
        };
        ErrorData { code: self.code.clone(), message: self.message.clone(), args, cause }
    }

    /// A failure always has a code.
    pub open spec fn wf(&self) -> bool {
        self.code@.len() > 0
    }

    /// The text that describes the failure.
    pub open spec fn text(&self) -> Seq<char> {
        "Error: "@ + self.code@ + ", Message: "@ + self.message@ + ", Arguments "@ + args_text(
            self.args,
        )
    }

    /// A failure with a code and a message, without arguments or cause.
    pub fn new(code: &str, message: &str) -> (data: Self)
        requires
            code@.len() > 0,
        ensures
            data.wf(),
            data.code@ == code@,
            data.message@ == message@,
            data.args is None,
            data.cause is None,
    {
        Self { code: code.to_owned(), message: message.to_owned(), args: None, cause: None }
    }

    /// The same failure with `args` as its arguments.
    pub fn with_args(self, args: ErrorArgs) -> (data: Self)
        ensures
            data.args == Some(args),
            data.code == self.code,
            data.message == self.message,
            data.cause == self.cause,
            self.wf() ==> data.wf(),
    {
        let mut data = self;
        data.args = Some(args);
        data
    }

    /// The same failure with `cause` as its cause, or without one.
    pub fn with_cause(self, cause: Option<ErrorCause>) -> (data: Self)
        ensures
            match cause {
                Some(c) => data.cause == Some(Box::new(c)),
                None => data.cause is None,
            },
            data.code == self.code,
            data.message == self.message,
            data.args == self.args,
            self.wf() ==> data.wf(),
    {
        let mut data = self;
        data.cause = match cause {
            Some(c) => Some(Box::new(c)),
            None => None,
        };
        data
    }

    /// Describes the failure in one line: code, message and arguments.
    pub fn describe(&self) -> (line: String)
        ensures
            line@ == self.text(),
    {
        let mut line = "Error: ".to_owned();
        line.append(self.code.as_str());
        line.append(", Message: ");
        line.append(self.message.as_str());
        line.append(", Arguments ");
        match &self.args {
            None => {
                line.append("None");
            },
            Some(args) => {
                line.append("Some({");
                let ghost start = line@;
                let list = args.entries();
                let mut i: usize = 0;
                while i < list.len()
                    invariant
                        i <= list.len(),
                        line@ == start + pairs_text(pairs_of(list@).subrange(0, i as int)),
                    decreases list.len() - i,
                {
                    proof {
                        let next = pairs_of(list@).subrange(0, i + 1);
                        assert(next.drop_last() == pairs_of(list@).subrange(0, i as int));
                        assert(next.last() == (list@[i as int].0@, list@[i as int].1@));
                    }
                    if i > 0 {
                        line.append(", ");
                    }
                    line.append("\"");
                    line.append(list[i].0.as_str());
                    line.append("\": \"");
                    line.append(list[i].1.as_str());
                    line.append("\"");
                    i += 1;
                }
                proof {
                    assert(pairs_of(list@).subrange(0, list@.len() as int) == pairs_of(list@));
                }
                line.append("})");
            },
        }
        line
    }
}

impl AppError {
    /// Whether two failures are of the same kind and say the same of
    /// themselves.
    pub open spec fn same(&self, other: &AppError) -> bool
        decreases self,
    {
        match (*self, *other) {
            (AppError::NotFound(a), AppError::NotFound(b)) => a.same(&b),
            (AppError::Internal(a), AppError::Internal(b)) => a.same(&b),
            (AppError::IllegalArgument(a), AppError::IllegalArgument(b)) => a.same(&b),
            (AppError::Unauthorized(a), AppError::Unauthorized(b)) => a.same(&b),
            (AppError::UnprocessableEntity(a), AppError::UnprocessableEntity(b)) => a.same(&b),
            (AppError::Database(a), AppError::Database(b)) => a.same(&b),
            (AppError::Validation(a), AppError::Validation(b)) => a.same(&b),
            (AppError::Service(a), AppError::Service(b)) => a.same(&b),
            _ => false,
        }
    }

    /// A copy of the failure: the same kind, code, message and arguments,
    /// and a copy of its cause.
    pub fn duplicate(&self) -> (copy: Self)
        ensures
            copy.same(self),
        decreases self,
    {
        match self {
            AppError::NotFound(d) => AppError::NotFound(d.duplicate()),
            AppError::Internal(d) => AppError::Internal(d.duplicate()),
            AppError::IllegalArgument(d) => AppError::IllegalArgument(d.duplicate()),
            AppError::Unauthorized(d) => AppError::Unauthorized(d.duplicate()),
            AppError::UnprocessableEntity(d) => AppError::UnprocessableEntity(d.duplicate()),
            AppError::Database(d) => AppError::Database(d.duplicate()),
            AppError::Validation(d) => AppError::Validation(d.duplicate()),
            AppError::Service(d) => AppError::Service(d.duplicate()),
        }
    }

    /// What the failure says of itself, whatever its kind.
    pub open spec fn spec_data(&self) -> ErrorData {
        match *self {
            AppError::NotFound(d) => d,
            AppError::Internal(d) => d,
            AppError::IllegalArgument(d) => d,
            AppError::Unauthorized(d) => d,
            AppError::UnprocessableEntity(d) => d,
            AppError::Database(d) => d,
            AppError::Validation(d) => d,
            AppError::Service(d) => d,
        }
    }

    /// The failure that an opaque failure stands for: the domain failure it
    /// wraps, or an internal failure that keeps it as its cause.
    pub open spec fn converts(value: ErrorCause, error: AppError) -> bool {
        match value {
            ErrorCause::Domain(inner) => error == inner,
            ErrorCause::Opaque(_) => {
                &&& error matches AppError::Internal(d)
                &&& d.code@ == INTERNAL_ERROR_CODE@
                &&& d.message@ == "internal error"@
                &&& d.args is None
                &&& d.cause == Some(Box::new(value))
            },
        }
    }

    /// What the failure says of itself, whatever its kind.
    pub fn data(&self) -> (d: &ErrorData)
        ensures
            *d == self.spec_data(),
    {
        match self {
            AppError::NotFound(d) => d,
            AppError::Internal(d) => d,
            AppError::IllegalArgument(d) => d,
            AppError::Unauthorized(d) => d,
            AppError::UnprocessableEntity(d) => d,
            AppError::Database(d) => d,
            AppError::Validation(d) => d,
            AppError::Service(d) => d,
        }
    }

    /// Turns a failure of unknown origin into a domain failure. One that
    /// wraps a domain failure gives that failure back unchanged; any other
    /// becomes the cause of an internal failure. Every input has a result.
    pub fn from(value: ErrorCause) -> (error: Self)
        ensures
            Self::converts(value, error),
            value is Opaque ==> error.spec_data().wf(),
    {
        match value {
            ErrorCause::Domain(inner) => inner,
            ErrorCause::Opaque(text) => {
                proof {
                    reveal_strlit("internal");
                }
                AppError::Internal(
                    ErrorData::new(INTERNAL_ERROR_CODE, "internal error").with_cause(
                        Some(ErrorCause::Opaque(text)),
                    ),
                )
            },
        }
    }

    /// The failure that a request which fails its checks is reported
    /// with: a rejected input that keeps what the checks said as its cause.
    pub fn from_validation_errors(value: &validator::ValidationErrors) -> (error: Self)
        ensures
            ({
                &&& error matches AppError::Validation(d)
                &&& d.code@ == INTERNAL_ERROR_CODE@
                &&& d.message@ == "validation error"@
                &&& d.args is None
                &&& d.cause matches Some(c)
                &&& *c is Opaque
            }),
    {
        proof {
            reveal_strlit("internal");
        }
        AppError::Validation(
            ErrorData::new(INTERNAL_ERROR_CODE, "validation error").with_cause(
                Some(ErrorCause::Opaque(validation_errors_text(value))),
            ),
        )
    }

    /// The failure that led to this one, if one did.
    pub fn cause(&self) -> (cause: Option<&ErrorCause>)
        ensures
            match cause {
                Some(c) => self.spec_data().cause == Some(Box::new(*c)),
                None => self.spec_data().cause is None,
            },
    {
        match &self.data().cause {
            Some(c) => Some(&**c),
            None => None,
        }
    }

    /// Describes the failure in one line: code, message and arguments.
    pub fn describe(&self) -> (line: String)
        ensures
            line@ == self.spec_data().text(),
    {
        self.data().describe()
    }
}

} // verus!
