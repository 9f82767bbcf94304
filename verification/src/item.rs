use crate::date::{CalendarDate, Timestamp, TimestampView};
use vstd::prelude::*;

verus! {

/// The fields that the three kinds of work item have between them.
#[derive(Clone, Copy, Debug, PartialEq, Eq, Structural)]
pub enum Field {
    Id,
    Title,
    Author,
    CreatedAt,
    Additions,
    Deletions,
    Status,
    Severity,
    ResolvedAt,
    Assignee,
    Version,
    TestCycle,
    StartDate,
    EndDate,
    Owner,
}

impl Field {
    /// The name of the field as the endpoints write it.
    pub open spec fn name_of(self) -> Seq<char> {
        match self {
            Field::Id => "id"@,
            Field::Title => "title"@,
            Field::Author => "author"@,
            Field::CreatedAt => "created_at"@,
            Field::Additions => "additions"@,
            Field::Deletions => "deletions"@,
            Field::Status => "status"@,
            Field::Severity => "severity"@,
            Field::ResolvedAt => "resolved_at"@,
            Field::Assignee => "assignee"@,
            Field::Version => "version"@,
            Field::TestCycle => "test_cycle"@,
            Field::StartDate => "start_date"@,
            Field::EndDate => "end_date"@,
            Field::Owner => "owner"@,
        }
    }

    /// The name of the field as the endpoints write it.
    pub fn name(self) -> (r: &'static str)
        ensures
            r@ == self.name_of(),
    {
        match self {
            Field::Id => "id",
            Field::Title => "title",
            Field::Author => "author",
            Field::CreatedAt => "created_at",
            Field::Additions => "additions",
            Field::Deletions => "deletions",
            Field::Status => "status",
            Field::Severity => "severity",
            Field::ResolvedAt => "resolved_at",
            Field::Assignee => "assignee",
            Field::Version => "version",
            Field::TestCycle => "test_cycle",
            Field::StartDate => "start_date",
            Field::EndDate => "end_date",
            Field::Owner => "owner",
        }
    }
}

/// A record of a tracking system, read through the names of its fields.
pub trait WorkItem {
    /// What a text field holds; `None` for a field that the item lacks or
    /// that holds no text.
    spec fn text_of(&self, field: Field) -> Option<Seq<char>>;

    /// The day of the instant that a timestamp field names; `None` for a
    /// field that the item lacks, that is no timestamp, or that names none.
    spec fn date_of(&self, field: Field) -> Option<CalendarDate>;

    fn text(&self, field: Field) -> (r: Option<&str>)
        ensures
            match r {
                Some(t) => self.text_of(field) == Some(t@),
                None => self.text_of(field) is None,
            },
    ;

    fn date(&self, field: Field) -> (r: Option<CalendarDate>)
        ensures
            r == self.date_of(field),
    ;
}

impl<'a, T: WorkItem> WorkItem for &'a T {
    open spec fn text_of(&self, field: Field) -> Option<Seq<char>> {
        (**self).text_of(field)
    }

    open spec fn date_of(&self, field: Field) -> Option<CalendarDate> {
        (**self).date_of(field)
    }

    fn text(&self, field: Field) -> (r: Option<&str>) {
        (**self).text(field)
    }

    fn date(&self, field: Field) -> (r: Option<CalendarDate>) {
        (**self).date(field)
    }
}

/// A merge request of the code-review system.
#[derive(Debug)]
pub struct MergeRequest {
    pub id: String,
    pub title: String,
    pub author: String,
    pub created_at: Timestamp,
    pub additions: i32,
    pub deletions: i32,
    pub status: String,
}

pub struct MergeRequestView {
    pub id: Seq<char>,
    pub title: Seq<char>,
    pub author: Seq<char>,
    pub created_at: TimestampView,
    pub additions: int,
    pub deletions: int,
    pub status: Seq<char>,
}

impl View for MergeRequest {
    type V = MergeRequestView;

    open spec fn view(&self) -> MergeRequestView {
        MergeRequestView {
            id: self.id@,
            title: self.title@,
            author: self.author@,
            created_at: self.created_at@,
            additions: self.additions as int,
            deletions: self.deletions as int,
            status: self.status@,
        }
    }
}

impl Clone for MergeRequest {
    fn clone(&self) -> (r: Self)
        ensures
            r@ == self@,
    {
        MergeRequest {
            id: self.id.clone(),
            title: self.title.clone(),
            author: self.author.clone(),
            created_at: self.created_at.clone(),
            additions: self.additions,
            deletions: self.deletions,
            status: self.status.clone(),
        }
    }
}

impl WorkItem for MergeRequest {
    open spec fn text_of(&self, field: Field) -> Option<Seq<char>> {
        match field {
            Field::Id => Some(self.id@),
            Field::Title => Some(self.title@),
            Field::Author => Some(self.author@),
            Field::Status => Some(self.status@),
            _ => None,
        }
    }

    open spec fn date_of(&self, field: Field) -> Option<CalendarDate> {
        match field {
            Field::CreatedAt => self.created_at@.date(),
            _ => None,
        }
    }

    fn text(&self, field: Field) -> (r: Option<&str>) {
        match field {
            Field::Id => Some(self.id.as_str()),
            Field::Title => Some(self.title.as_str()),
            Field::Author => Some(self.author.as_str()),
            Field::Status => Some(self.status.as_str()),
            _ => None,
        }
    }

    fn date(&self, field: Field) -> (r: Option<CalendarDate>) {
        match field {
            Field::CreatedAt => self.created_at.date(),
            _ => None,
        }
    }
}

/// A defect ticket.
#[derive(Debug)]
pub struct Issue {
    pub id: String,
    pub title: String,
    pub severity: String,
    pub status: String,
    pub created_at: Timestamp,
    pub resolved_at: Option<Timestamp>,
    pub assignee: String,
}

pub struct IssueView {
    pub id: Seq<char>,
    pub title: Seq<char>,
    pub severity: Seq<char>,
    pub status: Seq<char>,
    pub created_at: TimestampView,
    pub resolved_at: Option<TimestampView>,
    pub assignee: Seq<char>,
}

impl View for Issue {
    type V = IssueView;

    open spec fn view(&self) -> IssueView {
        IssueView {
            id: self.id@,
            title: self.title@,
            severity: self.severity@,
            status: self.status@,
            created_at: self.created_at@,
            resolved_at: match self.resolved_at {
                Some(at) => Some(at@),
                None => None,
            },
            assignee: self.assignee@,
        }
    }
}

impl Clone for Issue {
    fn clone(&self) -> (r: Self)
        ensures
            r@ == self@,
    {
        Issue {
            id: self.id.clone(),
            title: self.title.clone(),
            severity: self.severity.clone(),
            status: self.status.clone(),
            created_at: self.created_at.clone(),
            resolved_at: match &self.resolved_at {
                Some(at) => Some(at.clone()),
                None => None,
            },
            assignee: self.assignee.clone(),
        }
    }
}

impl WorkItem for Issue {
    open spec fn text_of(&self, field: Field) -> Option<Seq<char>> {
        match field {
            Field::Id => Some(self.id@),
            Field::Title => Some(self.title@),
            Field::Severity => Some(self.severity@),
            Field::Status => Some(self.status@),
            Field::Assignee => Some(self.assignee@),
            _ => None,
        }
    }

    open spec fn date_of(&self, field: Field) -> Option<CalendarDate> {
        match field {
            Field::CreatedAt => self.created_at@.date(),
            Field::ResolvedAt => match self.resolved_at {
                Some(at) => at@.date(),
                None => None,
            },
            _ => None,
        }
    }

    fn text(&self, field: Field) -> (r: Option<&str>) {
        match field {
            Field::Id => Some(self.id.as_str()),
            Field::Title => Some(self.title.as_str()),
            Field::Severity => Some(self.severity.as_str()),
            Field::Status => Some(self.status.as_str()),
            Field::Assignee => Some(self.assignee.as_str()),
            _ => None,
        }
    }

    fn date(&self, field: Field) -> (r: Option<CalendarDate>) {
        match field {
            Field::CreatedAt => self.created_at.date(),
            Field::ResolvedAt => match &self.resolved_at {
                Some(at) => at.date(),
                None => None,
            },
            _ => None,
        }
    }
}

/// A requirement with its test cycle.
#[derive(Debug)]
pub struct Requirement {
    pub id: String,
    pub title: String,
    pub version: String,
    pub test_cycle: String,
    pub start_date: Timestamp,
    pub end_date: Timestamp,
    pub status: String,
    pub owner: String,
}

pub struct RequirementView {
    pub id: Seq<char>,
    pub title: Seq<char>,
    pub version: Seq<char>,
    pub test_cycle: Seq<char>,
    pub start_date: TimestampView,
    pub end_date: TimestampView,
    pub status: Seq<char>,
    pub owner: Seq<char>,
}

impl View for Requirement {
    type V = RequirementView;

    open spec fn view(&self) -> RequirementView {
        RequirementView {
            id: self.id@,
            title: self.title@,
            version: self.version@,
            test_cycle: self.test_cycle@,
            start_date: self.start_date@,
            end_date: self.end_date@,
            status: self.status@,
            owner: self.owner@,
        }
    }
}

impl Clone for Requirement {
    fn clone(&self) -> (r: Self)
        ensures
            r@ == self@,
    {
        Requirement {
            id: self.id.clone(),
            title: self.title.clone(),
            version: self.version.clone(),
            test_cycle: self.test_cycle.clone(),
            start_date: self.start_date.clone(),
            end_date: self.end_date.clone(),
            status: self.status.clone(),
            owner: self.owner.clone(),
        }
    }
}

impl WorkItem for Requirement {
    open spec fn text_of(&self, field: Field) -> Option<Seq<char>> {
        match field {
            Field::Id => Some(self.id@),
            Field::Title => Some(self.title@),
            Field::Version => Some(self.version@),
            Field::TestCycle => Some(self.test_cycle@),
            Field::Status => Some(self.status@),
            Field::Owner => Some(self.owner@),
            _ => None,
        }
    }

    open spec fn date_of(&self, field: Field) -> Option<CalendarDate> {
        match field {
            Field::StartDate => self.start_date@.date(),
            Field::EndDate => self.end_date@.date(),
            _ => None,
        }
    }

    fn text(&self, field: Field) -> (r: Option<&str>) {
        match field {
            Field::Id => Some(self.id.as_str()),
            Field::Title => Some(self.title.as_str()),
            Field::Version => Some(self.version.as_str()),
            Field::TestCycle => Some(self.test_cycle.as_str()),
            Field::Status => Some(self.status.as_str()),
            Field::Owner => Some(self.owner.as_str()),
            _ => None,
        }
    }

    fn date(&self, field: Field) -> (r: Option<CalendarDate>) {
        match field {
            Field::StartDate => self.start_date.date(),
            Field::EndDate => self.end_date.date(),
            _ => None,
        }
    }
}

} // verus!
