//! Role modes and the roles that they assign.
//!
//! A role is known by a stable key made of its category and its name
//! (`level:Undergrad`, `class:Doctoral`); the key does not depend on how the
//! role is named on the platform.

use vstd::prelude::*;

verus! {

/// Which role categories are assigned after verification.
#[derive(Debug, Clone, Copy, PartialEq, Eq, Structural)]
pub enum RoleMode {
    VerifiedOnly,
    Levels,
    Classes,
    Custom,
}

/// The stored name of each mode.
pub open spec fn mode_name(m: RoleMode) -> Seq<char> {
    match m {
        RoleMode::VerifiedOnly => "none"@,
        RoleMode::Levels => "levels"@,
        RoleMode::Classes => "classes"@,
        RoleMode::Custom => "custom"@,
    }
}

/// The mode that a stored name stands for; any other name means no mode.
pub open spec fn mode_of_name(s: Seq<char>) -> RoleMode {
    if s == "levels"@ {
        RoleMode::Levels
    } else if s == "classes"@ {
        RoleMode::Classes
    } else if s == "custom"@ {
        RoleMode::Custom
    } else {
        RoleMode::VerifiedOnly
    }
}

/// Whether two strings hold the same characters.
pub fn same_text(a: &str, b: &str) -> (r: bool)
    ensures
        r == (a@ == b@),
{
    a.to_owned() == b.to_owned()
}

impl RoleMode {
    pub fn from_str(s: &str) -> (r: RoleMode)
        ensures
            r == mode_of_name(s@),
    {
        if same_text(s, "levels") {
            RoleMode::Levels
        } else if same_text(s, "classes") {
            RoleMode::Classes
        } else if same_text(s, "custom") {
            RoleMode::Custom
        } else {
            RoleMode::VerifiedOnly
        }
    }

    pub fn as_str(&self) -> (r: &'static str)
        ensures
            r@ == mode_name(*self),
    {
        match self {
            RoleMode::VerifiedOnly => "none",
            RoleMode::Levels => "levels",
            RoleMode::Classes => "classes",
            RoleMode::Custom => "custom",
        }
    }

    /// Whether this mode's roles include `r`.
    pub fn covers(&self, r: Role) -> (b: bool)
        ensures
            b == mode_covers(*self, r),
    {
        match self {
            RoleMode::VerifiedOnly => false,
            RoleMode::Levels => r.category() == RoleCategory::Level,
            RoleMode::Classes => r.category() == RoleCategory::Class,
            RoleMode::Custom => true,
        }
    }

    /// Whether users get a level role under this mode.
    pub fn assigns_levels(&self) -> (r: bool)
        ensures
            r == (*self == RoleMode::Levels || *self == RoleMode::Custom),
    {
        matches!(self, RoleMode::Levels | RoleMode::Custom)
    }

    /// Whether users get a class role under this mode.
    pub fn assigns_classes(&self) -> (r: bool)
        ensures
            r == (*self == RoleMode::Classes || *self == RoleMode::Custom),
    {
        matches!(self, RoleMode::Classes | RoleMode::Custom)
    }
}

/// Reading a mode back from its stored name gives the mode.
pub proof fn lemma_mode_name_round_trip(m: RoleMode)
    ensures
        mode_of_name(mode_name(m)) == m,
{
    reveal_strlit("none");
    reveal_strlit("levels");
    reveal_strlit("classes");
    reveal_strlit("custom");
    assert("none"@ != "levels"@ && "none"@ != "classes"@ && "none"@ != "custom"@) by {
        assert("none"@.len() != "levels"@.len());
        assert("none"@.len() != "classes"@.len());
        assert("none"@.len() != "custom"@.len());
    }
    assert("levels"@ != "custom"@ && "classes"@ != "levels"@ && "classes"@ != "custom"@) by {
        assert("levels"@[0] != "custom"@[0]);
        assert("classes"@.len() != "levels"@.len());
        assert("classes"@.len() != "custom"@.len());
    }
}

#[derive(Debug, Clone, Copy, PartialEq, Eq, Structural)]
pub enum RoleCategory {
    Level,
    Class,
}

/// The roles that a server can have assigned automatically.
#[derive(Debug, Clone, Copy, PartialEq, Eq, Structural)]
pub enum Role {
    Undergrad,
    Graduate,
    FirstYear,
    Sophomore,
    Junior,
    Senior,
    FifthYearSenior,
    Masters,
    Doctoral,
}

/// The number of roles.
pub const ROLE_COUNT: usize = 9;

pub open spec fn role_at(i: int) -> Role {
    if i == 0 {
        Role::Undergrad
    } else if i == 1 {
        Role::Graduate
    } else if i == 2 {
        Role::FirstYear
    } else if i == 3 {
        Role::Sophomore
    } else if i == 4 {
        Role::Junior
    } else if i == 5 {
        Role::Senior
    } else if i == 6 {
        Role::FifthYearSenior
    } else if i == 7 {
        Role::Masters
    } else {
        Role::Doctoral
    }
}

pub open spec fn role_index(r: Role) -> int {
    match r {
        Role::Undergrad => 0,
        Role::Graduate => 1,
        Role::FirstYear => 2,
        Role::Sophomore => 3,
        Role::Junior => 4,
        Role::Senior => 5,
        Role::FifthYearSenior => 6,
        Role::Masters => 7,
        Role::Doctoral => 8,
    }
}

pub open spec fn role_category(r: Role) -> RoleCategory {
    match r {
        Role::Undergrad | Role::Graduate => RoleCategory::Level,
        _ => RoleCategory::Class,
    }
}

/// The name under which a role is created on the platform.
pub open spec fn role_name(r: Role) -> Seq<char> {
    match r {
        Role::Undergrad => "Undergrad"@,
        Role::Graduate => "Graduate"@,
        Role::FirstYear => "First-Year"@,
        Role::Sophomore => "Sophomore"@,
        Role::Junior => "Junior"@,
        Role::Senior => "Senior"@,
        Role::FifthYearSenior => "Fifth-Year Senior"@,
        Role::Masters => "Masters"@,
        Role::Doctoral => "Doctoral"@,
    }
}

pub open spec fn category_prefix(c: RoleCategory) -> Seq<char> {
    match c {
        RoleCategory::Level => "level"@,
        RoleCategory::Class => "class"@,
    }
}

/// The stable key of a role: its category, a colon, its name.
pub open spec fn role_key(r: Role) -> Seq<char> {
    category_prefix(role_category(r)) + ":"@ + role_name(r)
}

/// The value that the configuration wizard hands back when a role is picked.
pub open spec fn selection_value(r: Role) -> Seq<char> {
    match r {
        Role::Undergrad => "level:undergrad"@,
        Role::Graduate => "level:graduate"@,
        Role::FirstYear => "class:first-year"@,
        Role::Sophomore => "class:sophomore"@,
        Role::Junior => "class:junior"@,
        Role::Senior => "class:senior"@,
        Role::FifthYearSenior => "class:fifth-year"@,
        Role::Masters => "class:masters"@,
        Role::Doctoral => "class:doctoral"@,
    }
}

/// Whether a mode's roles include `r`: its own category, or every role for
/// the custom mode.
pub open spec fn mode_covers(m: RoleMode, r: Role) -> bool {
    match m {
        RoleMode::VerifiedOnly => false,
        RoleMode::Levels => role_category(r) == RoleCategory::Level,
        RoleMode::Classes => role_category(r) == RoleCategory::Class,
        RoleMode::Custom => true,
    }
}

pub proof fn lemma_role_index(r: Role)
    ensures
        0 <= role_index(r) < ROLE_COUNT,
        role_at(role_index(r)) == r,
{
}

pub proof fn lemma_role_at(i: int)
    requires
        0 <= i < ROLE_COUNT,
    ensures
        role_index(role_at(i)) == i,
{
}

/// Distinct roles have distinct names.
pub proof fn lemma_role_names_distinct(a: Role, b: Role)
    requires
        a != b,
    ensures
        role_name(a) != role_name(b),
{
    reveal_strlit("Undergrad");
    reveal_strlit("Graduate");
    reveal_strlit("First-Year");
    reveal_strlit("Sophomore");
    reveal_strlit("Junior");
    reveal_strlit("Senior");
    reveal_strlit("Fifth-Year Senior");
    reveal_strlit("Masters");
    reveal_strlit("Doctoral");
    if role_name(a).len() == role_name(b).len() {
        assert(role_name(a)[0] != role_name(b)[0] || role_name(a)[1] != role_name(b)[1]);
    }
}

impl Role {
    pub fn at(i: usize) -> (r: Role)
        requires
            i < ROLE_COUNT,
        ensures
            r == role_at(i as int),
    {
        if i == 0 {
            Role::Undergrad
        } else if i == 1 {
            Role::Graduate
        } else if i == 2 {
            Role::FirstYear
        } else if i == 3 {
            Role::Sophomore
        } else if i == 4 {
            Role::Junior
        } else if i == 5 {
            Role::Senior
        } else if i == 6 {
            Role::FifthYearSenior
        } else if i == 7 {
            Role::Masters
        } else {
            Role::Doctoral
        }
    }

    pub fn index(&self) -> (r: usize)
        ensures
            r as int == role_index(*self),
            r < ROLE_COUNT,
    {
        match self {
            Role::Undergrad => 0,
            Role::Graduate => 1,
            Role::FirstYear => 2,
            Role::Sophomore => 3,
            Role::Junior => 4,
            Role::Senior => 5,
            Role::FifthYearSenior => 6,
            Role::Masters => 7,
            Role::Doctoral => 8,
        }
    }

    pub fn category(&self) -> (r: RoleCategory)
        ensures
            r == role_category(*self),
    {
        match self {
            Role::Undergrad | Role::Graduate => RoleCategory::Level,
            _ => RoleCategory::Class,
        }
    }

    pub fn display_name(&self) -> (r: &'static str)
        ensures
            r@ == role_name(*self),
    {
        match self {
            Role::Undergrad => "Undergrad",
            Role::Graduate => "Graduate",
            Role::FirstYear => "First-Year",
            Role::Sophomore => "Sophomore",
            Role::Junior => "Junior",
            Role::Senior => "Senior",
            Role::FifthYearSenior => "Fifth-Year Senior",
            Role::Masters => "Masters",
            Role::Doctoral => "Doctoral",
        }
    }

    pub fn key(&self) -> (r: String)
        ensures
            r@ == role_key(*self),
    {
        let mut out = String::new();
        match self.category() {
            RoleCategory::Level => out.append("level"),
            RoleCategory::Class => out.append("class"),
        }
        out.append(":");
        out.append(self.display_name());
        assert(out@ =~= role_key(*self));
        out
    }

    pub fn selection_value(&self) -> (r: &'static str)
        ensures
            r@ == selection_value(*self),
    {
        match self {
            Role::Undergrad => "level:undergrad",
            Role::Graduate => "level:graduate",
            Role::FirstYear => "class:first-year",
            Role::Sophomore => "class:sophomore",
            Role::Junior => "class:junior",
            Role::Senior => "class:senior",
            Role::FifthYearSenior => "class:fifth-year",
            Role::Masters => "class:masters",
            Role::Doctoral => "class:doctoral",
        }
    }

    /// The role of a given category whose name is `name`, if any.
    pub fn named(category: RoleCategory, name: &str) -> (r: Option<Role>)
        ensures
            match r {
                Some(role) => role_category(role) == category && role_name(role) == name@,
                None => forall|role: Role|
                    role_category(role) == category ==> role_name(role) != name@,
            },
    {
        let mut i: usize = 0;
        while i < ROLE_COUNT
            invariant
                0 <= i <= ROLE_COUNT,
                forall|j: int|
                    0 <= j < i ==> role_category(#[trigger] role_at(j)) == category ==> role_name(
                        role_at(j),
                    ) != name@,
            decreases ROLE_COUNT - i,
        {
            let role = Role::at(i);
            if role.category() == category && same_text(role.display_name(), name) {
                return Some(role);
            }
            i = i + 1;
        }
        assert forall|role: Role| role_category(role) == category implies role_name(role)
            != name@ by {
            lemma_role_index(role);
        }
        None
    }

    /// The role that a wizard selection value picks, if any.
    pub fn from_selection(value: &str) -> (r: Option<Role>)
        ensures
            match r {
                Some(role) => selection_value(role) == value@,
                None => forall|role: Role| selection_value(role) != value@,
            },
    {
        let mut i: usize = 0;
        while i < ROLE_COUNT
            invariant
                0 <= i <= ROLE_COUNT,
                forall|j: int| 0 <= j < i ==> selection_value(#[trigger] role_at(j)) != value@,
            decreases ROLE_COUNT - i,
        {
            let role = Role::at(i);
            if same_text(role.selection_value(), value) {
                return Some(role);
            }
            i = i + 1;
        }
        assert forall|role: Role| selection_value(role) != value@ by {
            lemma_role_index(role);
        }
        None
    }
}

} // verus!
