//! Projects group tasks.
use vstd::prelude::*;
use crate::text::string_from;
use crate::utils::datetime::now;
use crate::utils::ids::{generate_id, uuid_v7_shaped};

verus! {

/// A project that groups tasks. `created_at` is in microseconds since the Unix epoch.
#[derive(Debug, Clone)]
pub struct Project {
    /// Unique identifier (a UUID v7)
    pub id: String,
    /// Display name
    pub name: String,
    /// Color as a hex string, such as `#3498db`
    pub color: String,
    /// Icon shown beside the name
    pub icon: String,
    /// When the project was created
    pub created_at: i64,
}

/// A copy of some projects.
pub fn copy_projects(v: &Vec<Project>) -> (r: Vec<Project>)
    ensures
        r@ == v@,
{
    let mut r: Vec<Project> = Vec::new();
    let mut i: usize = 0;
    while i < v.len()
        invariant
            i <= v@.len(),
            r@ == v@.take(i as int),
        decreases v@.len() - i,
    {
        r.push(v[i].copy());
        assert(v@.take(i + 1) =~= v@.take(i as int).push(v@[i as int]));
        i = i + 1;
    }
    assert(v@.take(v@.len() as int) =~= v@);
    r
}

/// The color of a project created without style.
pub open spec fn default_color() -> Seq<char> {
    "#3498db"@
}

/// The icon of a project created without style.
pub open spec fn default_icon() -> Seq<char> {
    "📁"@
}

impl Project {
    /// A copy of the project.
    pub fn copy(&self) -> (r: Project)
        ensures
            r == *self,
    {
        Project {
            id: self.id.clone(),
            name: self.name.clone(),
            color: self.color.clone(),
            icon: self.icon.clone(),
            created_at: self.created_at,
        }
    }

    /// Creates a project with the given identifier, creation instant and style.
    pub fn with_style_at(name: &str, color: &str, icon: &str, id: String, at: i64) -> (r: Self)
        ensures
            r.id == id,
            r.name@ == name@,
            r.color@ == color@,
            r.icon@ == icon@,
            r.created_at == at,
    {
        Project {
            id,
            name: string_from(name),
            color: string_from(color),
            icon: string_from(icon),
            created_at: at,
        }
    }

    /// Creates a new project with the default color and icon.
    pub fn new(name: &str) -> (r: Self)
        ensures
            r.name@ == name@,
            r.color@ == default_color(),
            r.icon@ == default_icon(),
            uuid_v7_shaped(r.id@),
    {
        proof {
            reveal_strlit("#3498db");
            reveal_strlit("📁");
        }
        Project::with_style(name, "#3498db", "📁")
    }

    /// Creates a new project with a custom color and icon.
    pub fn with_style(name: &str, color: &str, icon: &str) -> (r: Self)
        ensures
            r.name@ == name@,
            r.color@ == color@,
            r.icon@ == icon@,
            uuid_v7_shaped(r.id@),
    {
        let id = generate_id();
        let at = now();
        Project::with_style_at(name, color, icon, id, at)
    }
}

impl Default for Project {
    fn default() -> (r: Self)
        ensures
            r.name@ == "Inbox"@,
            r.color@ == default_color(),
            r.icon@ == default_icon(),
    {
        Project::new("Inbox")
    }
}

} // verus!
