use vstd::prelude::*;
use vstd::string::*;

verus! {

/// The fields of `s` between occurrences of `d`, as `str::split` yields them:
/// always at least one field, and one more than the number of delimiters.
pub open spec fn split_fields(s: Seq<char>, d: char) -> Seq<Seq<char>>
    decreases s.len(),
{
    if s.len() == 0 {
        seq![Seq::<char>::empty()]
    } else {
        let prev = split_fields(s.drop_last(), d);
        if s.last() == d {
            prev.push(Seq::<char>::empty())
        } else {
            prev.update(prev.len() - 1, prev.last().push(s.last()))
        }
    }
}

/// `a` and `b` joined by the delimiter `d`.
pub open spec fn joined(a: Seq<char>, d: char, b: Seq<char>) -> Seq<char> {
    a + seq![d] + b
}

/// A field is safe for a canonical form when it holds no delimiter.
pub open spec fn free_of(s: Seq<char>, d: char) -> bool {
    forall|i: int| 0 <= i < s.len() ==> s[i] != d
}

pub proof fn lemma_split_nonempty(s: Seq<char>, d: char)
    ensures
        split_fields(s, d).len() >= 1,
    decreases s.len(),
{
    if s.len() > 0 {
        lemma_split_nonempty(s.drop_last(), d);
    }
}

/// A text without the delimiter is a single field.
pub proof fn lemma_split_free(s: Seq<char>, d: char)
    requires
        free_of(s, d),
    ensures
        split_fields(s, d) == seq![s],
    decreases s.len(),
{
    if s.len() > 0 {
        let p = s.drop_last();
        assert(free_of(p, d));
        lemma_split_free(p, d);
        assert(p.push(s.last()) =~= s);
    } else {
        assert(s =~= Seq::<char>::empty());
    }
}

/// Splitting at a delimiter splits the two sides independently.
pub proof fn lemma_split_join(x: Seq<char>, d: char, y: Seq<char>)
    ensures
        split_fields(joined(x, d, y), d) == split_fields(x, d) + split_fields(y, d),
    decreases y.len(),
{
    let s = joined(x, d, y);
    lemma_split_nonempty(y, d);
    lemma_split_nonempty(x, d);
    if y.len() == 0 {
        assert(s.drop_last() =~= x);
        assert(split_fields(y, d) =~= seq![Seq::<char>::empty()]);
        assert(split_fields(s, d) =~= split_fields(x, d) + split_fields(y, d));
    } else {
        let y0 = y.drop_last();
        lemma_split_join(x, d, y0);
        lemma_split_nonempty(y0, d);
        assert(s.drop_last() =~= joined(x, d, y0));
        assert(s.last() == y.last());
        assert(split_fields(s, d) =~= split_fields(x, d) + split_fields(y, d));
    }
}

/// Splitting one more character extends the fields by that character.
proof fn lemma_split_step(s: Seq<char>, i: int, d: char)
    requires
        0 <= i < s.len(),
    ensures
        s.subrange(0, i + 1).drop_last() == s.subrange(0, i),
        s.subrange(0, i + 1).last() == s[i],
{
    assert(s.subrange(0, i + 1).drop_last() =~= s.subrange(0, i));
}

/// The fields of `s` between occurrences of `d`.
pub fn split_on(s: &str, d: char) -> (r: Vec<String>)
    ensures
        r@.len() == split_fields(s@, d).len(),
        forall|k: int| 0 <= k < r@.len() ==> #[trigger] r@[k]@ == split_fields(s@, d)[k],
{
    let n = s.unicode_len();
    let mut fields: Vec<String> = Vec::new();
    let mut start: usize = 0;
    let mut i: usize = 0;
    assert(s@.subrange(0, 0) =~= Seq::<char>::empty());
    while i < n
        invariant
            n == s@.len(),
            start <= i <= n,
            split_fields(s@.subrange(0, i as int), d).len() == fields@.len() + 1,
            forall|k: int|
                0 <= k < fields@.len() ==> #[trigger] fields@[k]@ == split_fields(
                    s@.subrange(0, i as int),
                    d,
                )[k],
            split_fields(s@.subrange(0, i as int), d).last() == s@.subrange(start as int, i as int),
        decreases n - i,
    {
        let c = s.get_char(i);
        proof {
            lemma_split_step(s@, i as int, d);
            lemma_split_nonempty(s@.subrange(0, i as int), d);
        }
        if c == d {
            let f = String::from_str(s.substring_char(start, i));
            fields.push(f);
            start = i + 1;
            assert(s@.subrange(start as int, i + 1) =~= Seq::<char>::empty());
        } else {
            assert(s@.subrange(start as int, i + 1) =~= s@.subrange(start as int, i as int).push(c));
        }
        i = i + 1;
    }
    assert(s@.subrange(0, n as int) =~= s@);
    let f = String::from_str(s.substring_char(start, n));
    fields.push(f);
    fields
}

/// Why a text is not a package or process identity.
#[derive(Clone, Copy, Debug, PartialEq, Eq, Structural)]
pub enum ProcessIdParseError {
    TooManyColons,
    MissingField,
}

impl ProcessIdParseError {
    /// A description of the error.
    pub fn to_string(&self) -> (r: String)
        ensures
            r@ == match self {
                ProcessIdParseError::TooManyColons => "Too many colons in ProcessId string"@,
                ProcessIdParseError::MissingField => "Missing field in ProcessId string"@,
            },
    {
        match self {
            ProcessIdParseError::TooManyColons => String::from_str(
                "Too many colons in ProcessId string",
            ),
            ProcessIdParseError::MissingField => String::from_str(
                "Missing field in ProcessId string",
            ),
        }
    }
}

/// A package: its name and the node that published it.
pub struct PackageId {
    package_name: String,
    publisher_node: String,
}

/// The canonical form of a package identity.
pub open spec fn package_text(package_name: Seq<char>, publisher_node: Seq<char>) -> Seq<char> {
    joined(package_name, ':', publisher_node)
}

/// What parsing yields for a text, as the two fields or the error.
pub open spec fn package_parse(s: Seq<char>) -> Result<(Seq<char>, Seq<char>), ProcessIdParseError> {
    let f = split_fields(s, ':');
    if f.len() < 2 {
        Err(ProcessIdParseError::MissingField)
    } else if f.len() > 2 {
        Err(ProcessIdParseError::TooManyColons)
    } else {
        Ok((f[0], f[1]))
    }
}

impl PackageId {
    pub closed spec fn spec_package(&self) -> Seq<char> {
        self.package_name@
    }

    pub closed spec fn spec_publisher(&self) -> Seq<char> {
        self.publisher_node@
    }

    pub open spec fn canonical(&self) -> Seq<char> {
        package_text(self.spec_package(), self.spec_publisher())
    }

    pub fn new(package_name: &str, publisher_node: &str) -> (r: Self)
        ensures
            r.spec_package() == package_name@,
            r.spec_publisher() == publisher_node@,
    {
        PackageId {
            package_name: String::from_str(package_name),
            publisher_node: String::from_str(publisher_node),
        }
    }

    pub fn from_str(input: &str) -> (r: Result<Self, ProcessIdParseError>)
        ensures
            match (r, package_parse(input@)) {
                (Ok(p), Ok(f)) => p.spec_package() == f.0 && p.spec_publisher() == f.1,
                (Err(e), Err(g)) => e == g,
                _ => false,
            },
    {
        let mut fields = split_on(input, ':');
        let n = fields.len();
        if n < 2 {
            return Err(ProcessIdParseError::MissingField);
        }
        if n > 2 {
            return Err(ProcessIdParseError::TooManyColons);
        }
        let publisher_node = fields.pop().unwrap();
        let package_name = fields.pop().unwrap();
        assert(package_name@ == split_fields(input@, ':')[0]);
        Ok(PackageId { package_name, publisher_node })
    }

    pub fn to_string(&self) -> (r: String)
        ensures
            r@ == self.canonical(),
    {
        proof {
            reveal_strlit(":");
        }
        let s = self.package_name.clone().concat(":");
        s.concat(self.publisher_node.as_str())
    }

    pub fn package(&self) -> (r: &str)
        ensures
            r@ == self.spec_package(),
    {
        self.package_name.as_str()
    }

    pub fn publisher_node(&self) -> (r: &str)
        ensures
            r@ == self.spec_publisher(),
    {
        self.publisher_node.as_str()
    }
}

/// A text holds the delimiter nowhere once the parts around it hold it nowhere.
pub proof fn lemma_joined_free(a: Seq<char>, d: char, b: Seq<char>, c: char)
    requires
        free_of(a, c),
        free_of(b, c),
        d != c,
    ensures
        free_of(joined(a, d, b), c),
{
    let s = joined(a, d, b);
    assert forall|i: int| 0 <= i < s.len() implies s[i] != c by {
        if i < a.len() {
            assert(s[i] == a[i]);
        } else if i > a.len() {
            assert(s[i] == b[i - a.len() - 1]);
        }
    }
}

/// Formatting a package identity and parsing the text gives the same fields back.
pub proof fn lemma_package_round_trip(package_name: Seq<char>, publisher_node: Seq<char>)
    requires
        free_of(package_name, ':'),
        free_of(publisher_node, ':'),
    ensures
        package_parse(package_text(package_name, publisher_node)) == Ok::<
            (Seq<char>, Seq<char>),
            ProcessIdParseError,
        >((package_name, publisher_node)),
{
    lemma_split_join(package_name, ':', publisher_node);
    lemma_split_free(package_name, ':');
    lemma_split_free(publisher_node, ':');
    let f = split_fields(package_text(package_name, publisher_node), ':');
    assert(f =~= seq![package_name, publisher_node]);
}

/// A process: its name, its package's name and the package's publisher.
#[derive(Debug)]
pub struct ProcessId {
    pub process_name: String,
    pub package_name: String,
    pub publisher_node: String,
}

/// The canonical form of a process identity.
pub open spec fn process_text(
    process_name: Seq<char>,
    package_name: Seq<char>,
    publisher_node: Seq<char>,
) -> Seq<char> {
    joined(joined(process_name, ':', package_name), ':', publisher_node)
}

/// What parsing yields for a text, as the three fields or the error.
pub open spec fn process_parse(s: Seq<char>) -> Result<
    (Seq<char>, Seq<char>, Seq<char>),
    ProcessIdParseError,
> {
    let f = split_fields(s, ':');
    if f.len() < 3 {
        Err(ProcessIdParseError::MissingField)
    } else if f.len() > 3 {
        Err(ProcessIdParseError::TooManyColons)
    } else {
        Ok((f[0], f[1], f[2]))
    }
}

/// Formatting a process identity and parsing the text gives the same fields back.
pub proof fn lemma_process_round_trip(p: Seq<char>, k: Seq<char>, n: Seq<char>)
    requires
        free_of(p, ':'),
        free_of(k, ':'),
        free_of(n, ':'),
    ensures
        process_parse(process_text(p, k, n)) == Ok::<
            (Seq<char>, Seq<char>, Seq<char>),
            ProcessIdParseError,
        >((p, k, n)),
{
    lemma_split_join(joined(p, ':', k), ':', n);
    lemma_split_join(p, ':', k);
    lemma_split_free(p, ':');
    lemma_split_free(k, ':');
    lemma_split_free(n, ':');
    let f = split_fields(process_text(p, k, n), ':');
    assert(f =~= seq![p, k, n]);
}

impl ProcessId {
    pub open spec fn canonical(&self) -> Seq<char> {
        process_text(self.process_name@, self.package_name@, self.publisher_node@)
    }

    /// Every field can be recovered from the canonical form.
    pub open spec fn well_formed(&self) -> bool {
        &&& free_of(self.process_name@, ':')
        &&& free_of(self.package_name@, ':')
        &&& free_of(self.publisher_node@, ':')
    }

    pub open spec fn same_fields(&self, other: &ProcessId) -> bool {
        &&& self.process_name@ == other.process_name@
        &&& self.package_name@ == other.package_name@
        &&& self.publisher_node@ == other.publisher_node@
    }

    pub fn new(process_name: &str, package_name: &str, publisher_node: &str) -> (r: Self)
        ensures
            r.process_name@ == process_name@,
            r.package_name@ == package_name@,
            r.publisher_node@ == publisher_node@,
    {
        ProcessId {
            process_name: String::from_str(process_name),
            package_name: String::from_str(package_name),
            publisher_node: String::from_str(publisher_node),
        }
    }

    pub fn from_str(input: &str) -> (r: Result<Self, ProcessIdParseError>)
        ensures
            match (r, process_parse(input@)) {
                (Ok(p), Ok(f)) => p.process_name@ == f.0 && p.package_name@ == f.1
                    && p.publisher_node@ == f.2,
                (Err(e), Err(g)) => e == g,
                _ => false,
            },
    {
        let mut fields = split_on(input, ':');
        let n = fields.len();
        if n < 3 {
            return Err(ProcessIdParseError::MissingField);
        }
        if n > 3 {
            return Err(ProcessIdParseError::TooManyColons);
        }
        let publisher_node = fields.pop().unwrap();
        let package_name = fields.pop().unwrap();
        let process_name = fields.pop().unwrap();
        assert(process_name@ == split_fields(input@, ':')[0]);
        assert(package_name@ == split_fields(input@, ':')[1]);
        Ok(ProcessId { process_name, package_name, publisher_node })
    }

    pub fn to_string(&self) -> (r: String)
        ensures
            r@ == self.canonical(),
    {
        proof {
            reveal_strlit(":");
        }
        let s = self.process_name.clone().concat(":");
        let s = s.concat(self.package_name.as_str());
        let s = s.concat(":");
        s.concat(self.publisher_node.as_str())
    }

    pub fn process(&self) -> (r: &str)
        ensures
            r@ == self.process_name@,
    {
        self.process_name.as_str()
    }

    pub fn package(&self) -> (r: &str)
        ensures
            r@ == self.package_name@,
    {
        self.package_name.as_str()
    }

    pub fn publisher_node(&self) -> (r: &str)
        ensures
            r@ == self.publisher_node@,
    {
        self.publisher_node.as_str()
    }

    /// A copy with the same fields.
    pub fn duplicate(&self) -> (r: Self)
        ensures
            r.same_fields(self),
    {
        ProcessId {
            process_name: self.process_name.clone(),
            package_name: self.package_name.clone(),
            publisher_node: self.publisher_node.clone(),
        }
    }

    /// Whether the canonical form of this identity is exactly `other`.
    pub fn eq_str(&self, other: &str) -> (r: bool)
        ensures
            r == process_eq_text(*self, other@),
    {
        text_matches_process(other, self)
    }
}

/// Whether `text` is exactly the canonical form of `process`; comparing in
/// either direction goes through this one function.
pub fn text_matches_process(text: &str, process: &ProcessId) -> (r: bool)
    ensures
        r == text_eq_process(text@, *process),
{
    let own = process.to_string();
    let other = String::from_str(text);
    other == own
}

impl PartialEq for ProcessId {
    fn eq(&self, other: &ProcessId) -> (r: bool)
        ensures
            r == self.same_fields(other),
    {
        self.process_name == other.process_name && self.package_name == other.package_name
            && self.publisher_node == other.publisher_node
    }
}

impl vstd::std_specs::cmp::PartialEqSpecImpl for ProcessId {
    open spec fn obeys_eq_spec() -> bool {
        true
    }

    open spec fn eq_spec(&self, other: &ProcessId) -> bool {
        self.same_fields(other)
    }
}

/// A value that names a process: an identity, or the text of one.
pub trait IntoProcessId: Sized {
    /// The fields of the process named, or why the value names none.
    spec fn process_fields(&self) -> Result<(Seq<char>, Seq<char>, Seq<char>), ProcessIdParseError>;

    fn into_process_id(self) -> (r: Result<ProcessId, ProcessIdParseError>)
        ensures
            match (r, self.process_fields()) {
                (Ok(p), Ok(f)) => p.process_name@ == f.0 && p.package_name@ == f.1
                    && p.publisher_node@ == f.2,
                (Err(e), Err(g)) => e == g,
                _ => false,
            },
    ;
}

impl IntoProcessId for ProcessId {
    open spec fn process_fields(&self) -> Result<
        (Seq<char>, Seq<char>, Seq<char>),
        ProcessIdParseError,
    > {
        Ok((self.process_name@, self.package_name@, self.publisher_node@))
    }

    fn into_process_id(self) -> (r: Result<ProcessId, ProcessIdParseError>) {
        Ok(self)
    }
}

impl<'a> IntoProcessId for &'a str {
    open spec fn process_fields(&self) -> Result<
        (Seq<char>, Seq<char>, Seq<char>),
        ProcessIdParseError,
    > {
        process_parse(self@)
    }

    fn into_process_id(self) -> (r: Result<ProcessId, ProcessIdParseError>) {
        ProcessId::from_str(self)
    }
}

/// An identity equals a text when its canonical form is that text.
pub open spec fn process_eq_text(process: ProcessId, text: Seq<char>) -> bool {
    process.canonical() == text
}

/// A text equals an identity when it is that identity's canonical form.
pub open spec fn text_eq_process(text: Seq<char>, process: ProcessId) -> bool {
    text == process.canonical()
}

/// Comparing an identity with a text gives the same answer from either side.
pub proof fn lemma_text_equality_symmetric(process: ProcessId, text: Seq<char>)
    ensures
        process_eq_text(process, text) == text_eq_process(text, process),
{
}

/// Why a text is not an address.
#[derive(Clone, Copy, Debug, PartialEq, Eq, Structural)]
pub enum AddressParseError {
    TooManyColons,
    MissingNodeId,
    MissingField,
}

impl AddressParseError {
    /// A description of the error.
    pub fn to_string(&self) -> (r: String)
        ensures
            r@ == match self {
                AddressParseError::TooManyColons => "Too many colons in ProcessId string"@,
                AddressParseError::MissingNodeId => "Node ID missing"@,
                AddressParseError::MissingField => "Missing field in ProcessId string"@,
            },
    {
        match self {
            AddressParseError::TooManyColons => String::from_str(
                "Too many colons in ProcessId string",
            ),
            AddressParseError::MissingNodeId => String::from_str("Node ID missing"),
            AddressParseError::MissingField => String::from_str(
                "Missing field in ProcessId string",
            ),
        }
    }
}

/// A message endpoint: a process on a node.
#[derive(Debug)]
pub struct Address {
    pub node: String,
    pub process: ProcessId,
}

/// The canonical form of an address.
pub open spec fn address_text(node: Seq<char>, process: Seq<char>) -> Seq<char> {
    joined(node, '@', process)
}

/// What parsing yields for a text, as the node and the three process fields, or
/// the error. A second `@` is one delimiter too many.
pub open spec fn address_parse(s: Seq<char>) -> Result<
    (Seq<char>, Seq<char>, Seq<char>, Seq<char>),
    AddressParseError,
> {
    let at = split_fields(s, '@');
    if at.len() < 2 {
        Err(AddressParseError::MissingNodeId)
    } else if at.len() > 2 {
        Err(AddressParseError::TooManyColons)
    } else {
        let f = split_fields(at[1], ':');
        if f.len() < 3 {
            Err(AddressParseError::MissingField)
        } else if f.len() > 3 {
            Err(AddressParseError::TooManyColons)
        } else {
            Ok((at[0], f[0], f[1], f[2]))
        }
    }
}

impl Address {
    pub open spec fn canonical(&self) -> Seq<char> {
        address_text(self.node@, self.process.canonical())
    }

    /// Every field can be recovered from the canonical form.
    pub open spec fn well_formed(&self) -> bool {
        &&& free_of(self.node@, '@')
        &&& self.process.well_formed()
        &&& free_of(self.process.process_name@, '@')
        &&& free_of(self.process.package_name@, '@')
        &&& free_of(self.process.publisher_node@, '@')
    }

    pub open spec fn same_fields(&self, other: &Address) -> bool {
        &&& self.node@ == other.node@
        &&& self.process.same_fields(&other.process)
    }

    /// An address on `node` for `process`, given as an identity or as its text.
    pub fn new<T: IntoProcessId>(node: &str, process: T) -> (r: Result<Self, ProcessIdParseError>)
        ensures
            match (r, process.process_fields()) {
                (Ok(a), Ok(f)) => a.node@ == node@ && a.process.process_name@ == f.0
                    && a.process.package_name@ == f.1 && a.process.publisher_node@ == f.2,
                (Err(e), Err(g)) => e == g,
                _ => false,
            },
    {
        match process.into_process_id() {
            Ok(p) => Ok(Address { node: String::from_str(node), process: p }),
            Err(e) => Err(e),
        }
    }

    pub fn from_str(input: &str) -> (r: Result<Self, AddressParseError>)
        ensures
            match (r, address_parse(input@)) {
                (Ok(a), Ok(f)) => a.node@ == f.0 && a.process.process_name@ == f.1
                    && a.process.package_name@ == f.2 && a.process.publisher_node@ == f.3,
                (Err(e), Err(g)) => e == g,
                _ => false,
            },
    {
        let mut at = split_on(input, '@');
        if at.len() < 2 {
            return Err(AddressParseError::MissingNodeId);
        }
        if at.len() > 2 {
            return Err(AddressParseError::TooManyColons);
        }
        let rest = at.remove(1);
        let node = at.remove(0);
        let mut fields = split_on(rest.as_str(), ':');
        let n = fields.len();
        if n < 3 {
            return Err(AddressParseError::MissingField);
        }
        if n > 3 {
            return Err(AddressParseError::TooManyColons);
        }
        let publisher_node = fields.pop().unwrap();
        let package_name = fields.pop().unwrap();
        let process_name = fields.pop().unwrap();
        assert(process_name@ == split_fields(rest@, ':')[0]);
        assert(package_name@ == split_fields(rest@, ':')[1]);
        Ok(Address { node, process: ProcessId { process_name, package_name, publisher_node } })
    }

    pub fn to_string(&self) -> (r: String)
        ensures
            r@ == self.canonical(),
    {
        proof {
            reveal_strlit("@");
        }
        let s = self.node.clone().concat("@");
        let p = self.process.to_string();
        s.concat(p.as_str())
    }

    /// A copy with the same fields.
    pub fn duplicate(&self) -> (r: Self)
        ensures
            r.same_fields(self),
    {
        Address { node: self.node.clone(), process: self.process.duplicate() }
    }
}

impl PartialEq for Address {
    fn eq(&self, other: &Address) -> (r: bool)
        ensures
            r == self.same_fields(other),
    {
        self.node == other.node && self.process == other.process
    }
}

impl vstd::std_specs::cmp::PartialEqSpecImpl for Address {
    open spec fn obeys_eq_spec() -> bool {
        true
    }

    open spec fn eq_spec(&self, other: &Address) -> bool {
        self.same_fields(other)
    }
}

/// A value that names an address: an address, or the text of one.
pub trait IntoAddress: Sized {
    /// The node and process fields of the address named, or why the value
    /// names none.
    spec fn address_fields(&self) -> Result<
        (Seq<char>, Seq<char>, Seq<char>, Seq<char>),
        AddressParseError,
    >;

    fn into_address(self) -> (r: Result<Address, AddressParseError>)
        ensures
            match (r, self.address_fields()) {
                (Ok(a), Ok(f)) => a.node@ == f.0 && a.process.process_name@ == f.1
                    && a.process.package_name@ == f.2 && a.process.publisher_node@ == f.3,
                (Err(e), Err(g)) => e == g,
                _ => false,
            },
    ;
}

impl IntoAddress for Address {
    open spec fn address_fields(&self) -> Result<
        (Seq<char>, Seq<char>, Seq<char>, Seq<char>),
        AddressParseError,
    > {
        Ok(
            (
                self.node@,
                self.process.process_name@,
                self.process.package_name@,
                self.process.publisher_node@,
            ),
        )
    }

    fn into_address(self) -> (r: Result<Address, AddressParseError>) {
        Ok(self)
    }
}

impl<'a> IntoAddress for &'a str {
    open spec fn address_fields(&self) -> Result<
        (Seq<char>, Seq<char>, Seq<char>, Seq<char>),
        AddressParseError,
    > {
        address_parse(self@)
    }

    fn into_address(self) -> (r: Result<Address, AddressParseError>) {
        Address::from_str(self)
    }
}

/// Formatting an address and parsing the text gives the same fields back.
pub proof fn lemma_address_round_trip(node: Seq<char>, p: Seq<char>, k: Seq<char>, n: Seq<char>)
    requires
        free_of(node, '@'),
        free_of(p, '@'),
        free_of(k, '@'),
        free_of(n, '@'),
        free_of(p, ':'),
        free_of(k, ':'),
        free_of(n, ':'),
    ensures
        address_parse(address_text(node, process_text(p, k, n))) == Ok::<
            (Seq<char>, Seq<char>, Seq<char>, Seq<char>),
            AddressParseError,
        >((node, p, k, n)),
{
    let pt = process_text(p, k, n);
    lemma_joined_free(p, ':', k, '@');
    lemma_joined_free(joined(p, ':', k), ':', n, '@');
    lemma_split_join(node, '@', pt);
    lemma_split_free(node, '@');
    lemma_split_free(pt, '@');
    assert(split_fields(address_text(node, pt), '@') =~= seq![node, pt]);
    lemma_process_round_trip(p, k, n);
}

/// Parsing fails on a text that lacks a segment or has one too many: an
/// address without `@` lacks its node, and one with a second `@` has too many
/// delimiters; a process identity with two segments,
/// or an address whose process has two, lacks a field; one with four, or an
/// address whose process has four, has too many colons.
pub proof fn lemma_parse_errors(s: Seq<char>, node: Seq<char>)
    ensures
        free_of(s, '@') ==> address_parse(s) == Err::<
            (Seq<char>, Seq<char>, Seq<char>, Seq<char>),
            AddressParseError,
        >(AddressParseError::MissingNodeId),
        split_fields(s, '@').len() > 2 ==> address_parse(s) == Err::<
            (Seq<char>, Seq<char>, Seq<char>, Seq<char>),
            AddressParseError,
        >(AddressParseError::TooManyColons),
        split_fields(s, ':').len() == 2 ==> process_parse(s) == Err::<
            (Seq<char>, Seq<char>, Seq<char>),
            ProcessIdParseError,
        >(ProcessIdParseError::MissingField),
        split_fields(s, ':').len() > 3 ==> process_parse(s) == Err::<
            (Seq<char>, Seq<char>, Seq<char>),
            ProcessIdParseError,
        >(ProcessIdParseError::TooManyColons),
        free_of(node, '@') && free_of(s, '@') && split_fields(s, ':').len() == 2 ==> address_parse(
            address_text(node, s),
        ) == Err::<(Seq<char>, Seq<char>, Seq<char>, Seq<char>), AddressParseError>(
            AddressParseError::MissingField,
        ),
        free_of(node, '@') && free_of(s, '@') && split_fields(s, ':').len() > 3 ==> address_parse(
            address_text(node, s),
        ) == Err::<(Seq<char>, Seq<char>, Seq<char>, Seq<char>), AddressParseError>(
            AddressParseError::TooManyColons,
        ),
{
    if free_of(s, '@') {
        lemma_split_free(s, '@');
        if free_of(node, '@') {
            lemma_split_join(node, '@', s);
            lemma_split_free(node, '@');
            assert(split_fields(address_text(node, s), '@') =~= seq![node, s]);
        }
    }
}

/// Parsing the canonical form of a well-formed address gives its fields back.
pub proof fn lemma_address_value_round_trip(a: Address)
    requires
        a.well_formed(),
    ensures
        address_parse(a.canonical()) == Ok::<
            (Seq<char>, Seq<char>, Seq<char>, Seq<char>),
            AddressParseError,
        >((a.node@, a.process.process_name@, a.process.package_name@, a.process.publisher_node@)),
{
    lemma_address_round_trip(
        a.node@,
        a.process.process_name@,
        a.process.package_name@,
        a.process.publisher_node@,
    );
}

/// Parsing the canonical form of a well-formed process identity gives its
/// fields back.
pub proof fn lemma_process_value_round_trip(p: ProcessId)
    requires
        p.well_formed(),
    ensures
        process_parse(p.canonical()) == Ok::<
            (Seq<char>, Seq<char>, Seq<char>),
            ProcessIdParseError,
        >((p.process_name@, p.package_name@, p.publisher_node@)),
{
    lemma_process_round_trip(p.process_name@, p.package_name@, p.publisher_node@);
}

/// Formatting depends on the value alone: two formattings of equal identities
/// give the same text.
pub proof fn lemma_format_deterministic(a: Address, b: Address)
    requires
        a.same_fields(&b),
    ensures
        a.canonical() == b.canonical(),
        a.process.canonical() == b.process.canonical(),
{
}

} // verus!
