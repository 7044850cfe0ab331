use vstd::prelude::*;
use vstd::std_specs::cmp::PartialEqSpecImpl;
use vstd::string::*;

verus! {

/// The stable identity of a memory item.
#[derive(Debug, Eq, Hash)]
pub struct StableItemId(String);

impl Clone for StableItemId {
    fn clone(&self) -> (copy: StableItemId)
        ensures
            copy@ == self@,
    {
        StableItemId(self.0.clone())
    }
}

impl PartialEq for StableItemId {
    /// Equal exactly when the texts are equal.
    fn eq(&self, other: &StableItemId) -> (equal: bool) {
        self.0 == other.0
    }
}

impl PartialEqSpecImpl for StableItemId {
    open spec fn obeys_eq_spec() -> bool {
        true
    }

    open spec fn eq_spec(&self, other: &StableItemId) -> bool {
        self@ == other@
    }
}

impl View for StableItemId {
    type V = Seq<char>;

    closed spec fn view(&self) -> Seq<char> {
        self.0@
    }
}

impl StableItemId {
    /// Wraps the text as given.
    pub fn new(value: &str) -> (made: StableItemId)
        ensures
            made@ == value@,
    {
        StableItemId(String::from_str(value))
    }

    /// The wrapped text.
    pub fn as_str(&self) -> (text: &str)
        ensures
            text@ == self@,
    {
        self.0.as_str()
    }
}

/// The short identifier under which an item is shown.
#[derive(Debug, Eq, Hash)]
pub struct DisplayId(String);

impl Clone for DisplayId {
    fn clone(&self) -> (copy: DisplayId)
        ensures
            copy@ == self@,
    {
        DisplayId(self.0.clone())
    }
}

impl PartialEq for DisplayId {
    /// Two identifiers are equal exactly when their texts are.
    fn eq(&self, other: &DisplayId) -> (equal: bool) {
        self.0 == other.0
    }
}

impl PartialEqSpecImpl for DisplayId {
    open spec fn obeys_eq_spec() -> bool {
        true
    }

    open spec fn eq_spec(&self, other: &DisplayId) -> bool {
        self@ == other@
    }
}

impl View for DisplayId {
    type V = Seq<char>;

    closed spec fn view(&self) -> Seq<char> {
        self.0@
    }
}

impl DisplayId {
    /// Wraps the text as given.
    pub fn new(value: &str) -> (made: DisplayId)
        ensures
            made@ == value@,
    {
        DisplayId(String::from_str(value))
    }

    /// The wrapped text.
    pub fn as_str(&self) -> (text: &str)
        ensures
            text@ == self@,
    {
        self.0.as_str()
    }
}

/// An alias of an item in another tracker.
#[derive(Debug, Eq, Hash)]
pub struct ExternalAlias(String);

impl Clone for ExternalAlias {
    fn clone(&self) -> (copy: ExternalAlias)
        ensures
            copy@ == self@,
    {
        ExternalAlias(self.0.clone())
    }
}

impl PartialEq for ExternalAlias {
    /// Equal exactly when the texts are equal.
    fn eq(&self, other: &ExternalAlias) -> (equal: bool) {
        self.0 == other.0
    }
}

impl PartialEqSpecImpl for ExternalAlias {
    open spec fn obeys_eq_spec() -> bool {
        true
    }

    open spec fn eq_spec(&self, other: &ExternalAlias) -> bool {
        self@ == other@
    }
}

impl View for ExternalAlias {
    type V = Seq<char>;

    closed spec fn view(&self) -> Seq<char> {
        self.0@
    }
}

impl ExternalAlias {
    /// Wraps the text as given.
    pub fn new(value: &str) -> (made: ExternalAlias)
        ensures
            made@ == value@,
    {
        ExternalAlias(String::from_str(value))
    }

    /// The wrapped text.
    pub fn as_str(&self) -> (text: &str)
        ensures
            text@ == self@,
    {
        self.0.as_str()
    }
}

/// A task token of the BEADS tracker.
#[derive(Debug, Eq, Hash)]
pub struct BeadsToken(String);

impl Clone for BeadsToken {
    fn clone(&self) -> (copy: BeadsToken)
        ensures
            copy@ == self@,
    {
        BeadsToken(self.0.clone())
    }
}

impl PartialEq for BeadsToken {
    /// Equal exactly when the texts are equal.
    fn eq(&self, other: &BeadsToken) -> (equal: bool) {
        self.0 == other.0
    }
}

impl PartialEqSpecImpl for BeadsToken {
    open spec fn obeys_eq_spec() -> bool {
        true
    }

    open spec fn eq_spec(&self, other: &BeadsToken) -> bool {
        self@ == other@
    }
}

impl View for BeadsToken {
    type V = Seq<char>;

    closed spec fn view(&self) -> Seq<char> {
        self.0@
    }
}

impl BeadsToken {
    /// Wraps the text as given.
    pub fn new(value: &str) -> (made: BeadsToken)
        ensures
            made@ == value@,
    {
        BeadsToken(String::from_str(value))
    }

    /// The wrapped text.
    pub fn as_str(&self) -> (text: &str)
        ensures
            text@ == self@,
    {
        self.0.as_str()
    }
}

/// The identity of the operation that produced an event.
#[derive(Debug, Eq, Hash)]
pub struct OperationId(String);

impl Clone for OperationId {
    fn clone(&self) -> (copy: OperationId)
        ensures
            copy@ == self@,
    {
        OperationId(self.0.clone())
    }
}

impl PartialEq for OperationId {
    /// Equal exactly when the texts are equal.
    fn eq(&self, other: &OperationId) -> (equal: bool) {
        self.0 == other.0
    }
}

impl PartialEqSpecImpl for OperationId {
    open spec fn obeys_eq_spec() -> bool {
        true
    }

    open spec fn eq_spec(&self, other: &OperationId) -> bool {
        self@ == other@
    }
}

impl View for OperationId {
    type V = Seq<char>;

    closed spec fn view(&self) -> Seq<char> {
        self.0@
    }
}

impl OperationId {
    /// Wraps the text as given.
    pub fn new(value: &str) -> (made: OperationId)
        ensures
            made@ == value@,
    {
        OperationId(String::from_str(value))
    }

    /// The wrapped text.
    pub fn as_str(&self) -> (text: &str)
        ensures
            text@ == self@,
    {
        self.0.as_str()
    }
}

/// The actor that produced an event.
#[derive(Debug, Eq, Hash)]
pub struct ActorName(String);

impl Clone for ActorName {
    fn clone(&self) -> (copy: ActorName)
        ensures
            copy@ == self@,
    {
        ActorName(self.0.clone())
    }
}

impl PartialEq for ActorName {
    /// Equal exactly when the texts are equal.
    fn eq(&self, other: &ActorName) -> (equal: bool) {
        self.0 == other.0
    }
}

impl PartialEqSpecImpl for ActorName {
    open spec fn obeys_eq_spec() -> bool {
        true
    }

    open spec fn eq_spec(&self, other: &ActorName) -> bool {
        self@ == other@
    }
}

impl View for ActorName {
    type V = Seq<char>;

    closed spec fn view(&self) -> Seq<char> {
        self.0@
    }
}

impl ActorName {
    /// Wraps the text as given.
    pub fn new(value: &str) -> (made: ActorName)
        ensures
            made@ == value@,
    {
        ActorName(String::from_str(value))
    }

    /// The wrapped text.
    pub fn as_str(&self) -> (text: &str)
        ensures
            text@ == self@,
    {
        self.0.as_str()
    }
}

/// The title of a memory item.
#[derive(Debug, Eq)]
pub struct Title(String);

impl Clone for Title {
    fn clone(&self) -> (copy: Title)
        ensures
            copy@ == self@,
    {
        Title(self.0.clone())
    }
}

impl PartialEq for Title {
    /// Equal exactly when the texts are equal.
    fn eq(&self, other: &Title) -> (equal: bool) {
        self.0 == other.0
    }
}

impl PartialEqSpecImpl for Title {
    open spec fn obeys_eq_spec() -> bool {
        true
    }

    open spec fn eq_spec(&self, other: &Title) -> bool {
        self@ == other@
    }
}

impl View for Title {
    type V = Seq<char>;

    closed spec fn view(&self) -> Seq<char> {
        self.0@
    }
}

impl Title {
    /// Wraps the text as given.
    pub fn new(value: &str) -> (made: Title)
        ensures
            made@ == value@,
    {
        Title(String::from_str(value))
    }

    /// The wrapped text.
    pub fn as_str(&self) -> (text: &str)
        ensures
            text@ == self@,
    {
        self.0.as_str()
    }
}

/// Free text attached to a record.
#[derive(Debug, Eq)]
pub struct TextBody(String);

impl Clone for TextBody {
    fn clone(&self) -> (copy: TextBody)
        ensures
            copy@ == self@,
    {
        TextBody(self.0.clone())
    }
}

impl PartialEq for TextBody {
    /// Equal exactly when the texts are equal.
    fn eq(&self, other: &TextBody) -> (equal: bool) {
        self.0 == other.0
    }
}

impl PartialEqSpecImpl for TextBody {
    open spec fn obeys_eq_spec() -> bool {
        true
    }

    open spec fn eq_spec(&self, other: &TextBody) -> bool {
        self@ == other@
    }
}

impl View for TextBody {
    type V = Seq<char>;

    closed spec fn view(&self) -> Seq<char> {
        self.0@
    }
}

impl TextBody {
    /// Wraps the text as given.
    pub fn new(value: &str) -> (made: TextBody)
        ensures
            made@ == value@,
    {
        TextBody(String::from_str(value))
    }

    /// The wrapped text.
    pub fn as_str(&self) -> (text: &str)
        ensures
            text@ == self@,
    {
        self.0.as_str()
    }
}

/// The path of a report.
#[derive(Debug, Eq, Hash)]
pub struct ReportPath(String);

impl Clone for ReportPath {
    fn clone(&self) -> (copy: ReportPath)
        ensures
            copy@ == self@,
    {
        ReportPath(self.0.clone())
    }
}

impl PartialEq for ReportPath {
    /// Equal exactly when the texts are equal.
    fn eq(&self, other: &ReportPath) -> (equal: bool) {
        self.0 == other.0
    }
}

impl PartialEqSpecImpl for ReportPath {
    open spec fn obeys_eq_spec() -> bool {
        true
    }

    open spec fn eq_spec(&self, other: &ReportPath) -> bool {
        self@ == other@
    }
}

impl View for ReportPath {
    type V = Seq<char>;

    closed spec fn view(&self) -> Seq<char> {
        self.0@
    }
}

impl ReportPath {
    /// Wraps the text as given.
    pub fn new(value: &str) -> (made: ReportPath)
        ensures
            made@ == value@,
    {
        ReportPath(String::from_str(value))
    }

    /// The wrapped text.
    pub fn as_str(&self) -> (text: &str)
        ensures
            text@ == self@,
    {
        self.0.as_str()
    }
}

/// The path of a referenced file.
#[derive(Debug, Eq, Hash)]
pub struct ReferencePath(String);

impl Clone for ReferencePath {
    fn clone(&self) -> (copy: ReferencePath)
        ensures
            copy@ == self@,
    {
        ReferencePath(self.0.clone())
    }
}

impl PartialEq for ReferencePath {
    /// Equal exactly when the texts are equal.
    fn eq(&self, other: &ReferencePath) -> (equal: bool) {
        self.0 == other.0
    }
}

impl PartialEqSpecImpl for ReferencePath {
    open spec fn obeys_eq_spec() -> bool {
        true
    }

    open spec fn eq_spec(&self, other: &ReferencePath) -> bool {
        self@ == other@
    }
}

impl View for ReferencePath {
    type V = Seq<char>;

    closed spec fn view(&self) -> Seq<char> {
        self.0@
    }
}

impl ReferencePath {
    /// Wraps the text as given.
    pub fn new(value: &str) -> (made: ReferencePath)
        ensures
            made@ == value@,
    {
        ReferencePath(String::from_str(value))
    }

    /// The wrapped text.
    pub fn as_str(&self) -> (text: &str)
        ensures
            text@ == self@,
    {
        self.0.as_str()
    }
}

/// A git commit hash.
#[derive(Debug, Eq, Hash)]
pub struct CommitHash(String);

impl Clone for CommitHash {
    fn clone(&self) -> (copy: CommitHash)
        ensures
            copy@ == self@,
    {
        CommitHash(self.0.clone())
    }
}

impl PartialEq for CommitHash {
    /// Equal exactly when the texts are equal.
    fn eq(&self, other: &CommitHash) -> (equal: bool) {
        self.0 == other.0
    }
}

impl PartialEqSpecImpl for CommitHash {
    open spec fn obeys_eq_spec() -> bool {
        true
    }

    open spec fn eq_spec(&self, other: &CommitHash) -> bool {
        self@ == other@
    }
}

impl View for CommitHash {
    type V = Seq<char>;

    closed spec fn view(&self) -> Seq<char> {
        self.0@
    }
}

impl CommitHash {
    /// Wraps the text as given.
    pub fn new(value: &str) -> (made: CommitHash)
        ensures
            made@ == value@,
    {
        CommitHash(String::from_str(value))
    }

    /// The wrapped text.
    pub fn as_str(&self) -> (text: &str)
        ensures
            text@ == self@,
    {
        self.0.as_str()
    }
}

/// The identity of an adjudication request.
#[derive(Debug, Eq, Hash)]
pub struct AdjudicationRequestId(String);

impl Clone for AdjudicationRequestId {
    fn clone(&self) -> (copy: AdjudicationRequestId)
        ensures
            copy@ == self@,
    {
        AdjudicationRequestId(self.0.clone())
    }
}

impl PartialEq for AdjudicationRequestId {
    /// Equal exactly when the texts are equal.
    fn eq(&self, other: &AdjudicationRequestId) -> (equal: bool) {
        self.0 == other.0
    }
}

impl PartialEqSpecImpl for AdjudicationRequestId {
    open spec fn obeys_eq_spec() -> bool {
        true
    }

    open spec fn eq_spec(&self, other: &AdjudicationRequestId) -> bool {
        self@ == other@
    }
}

impl View for AdjudicationRequestId {
    type V = Seq<char>;

    closed spec fn view(&self) -> Seq<char> {
        self.0@
    }
}

impl AdjudicationRequestId {
    /// Wraps the text as given.
    pub fn new(value: &str) -> (made: AdjudicationRequestId)
        ensures
            made@ == value@,
    {
        AdjudicationRequestId(String::from_str(value))
    }

    /// The wrapped text.
    pub fn as_str(&self) -> (text: &str)
        ensures
            text@ == self@,
    {
        self.0.as_str()
    }
}

} // verus!
