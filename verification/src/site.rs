//! The built-in site data: the fixed directory tree and file contents a
//! session is created with.
//!
//! The tree has four top-level directories. Every directory referenced as
//! a child has its own key, so the catalog invariant holds by
//! construction.

use vstd::prelude::*;

verus! {

use crate::catalog::Catalog;

/// The built-in directory table.
pub open spec fn default_dirs() -> Map<Seq<char>, Seq<Seq<char>>> {
    Map::<Seq<char>, Seq<Seq<char>>>::empty().insert(
        "/"@,
        seq!["about/"@, "projects/"@, "work/"@, "random/"@],
    ).insert("/about/"@, seq!["summary"@, "secrets/"@]).insert(
        "/about/secrets/"@,
        seq!["shhh"@],
    ).insert("/projects/"@, seq!["summary"@]).insert(
        "/work/"@,
        Seq::<Seq<char>>::empty(),
    ).insert("/random/"@, seq!["warp"@, "rules_of_internet"@])
}

/// The built-in file-content table.
pub open spec fn default_files() -> Map<Seq<char>, Seq<char>> {
    Map::<Seq<char>, Seq<char>>::empty().insert(
        "/about/summary"@,
        "This project is built in Rust, using Dioxus, and some CSS."@,
    ).insert("/about/secrets/shhh"@, "There's an `exit` command. Don't try that."@).insert(
        "/projects/summary"@,
        "Let me talk about this one. I worked 4 days on building this after two years of not using Rust. I'd used Rust for 3 months before this, and I'd never heard of Dioxus before. Here we are. I'm a quick learner and I love to push myself to learn."@,
    ).insert(
        "/random/warp"@,
        "I think Warp is pretty cool. I'd love to be a part of the team, and contribute to making it a great product."@,
    ).insert(
        "/random/rules_of_internet"@,
        "It's silly, and mostly trolls. Of course, it's on a chan! Look up rule 16."@,
    )
}

/// Builds the built-in catalog. It satisfies the catalog invariant.
pub fn default_catalog() -> (r: Catalog)
    ensures
        r.dirs_view() == default_dirs(),
        r.files_view() == default_files(),
        r.wf(),
{
    let mut cat = Catalog::new_rooted();

    let mut root_children: Vec<String> = Vec::new();
    root_children.push("about/".to_owned());
    root_children.push("projects/".to_owned());
    root_children.push("work/".to_owned());
    root_children.push("random/".to_owned());
    assert(root_children.deep_view() =~= seq![
        "about/"@,
        "projects/"@,
        "work/"@,
        "random/"@,
    ]);
    cat.add_dir("/".to_owned(), root_children);

    let mut about_children: Vec<String> = Vec::new();
    about_children.push("summary".to_owned());
    about_children.push("secrets/".to_owned());
    assert(about_children.deep_view() =~= seq!["summary"@, "secrets/"@]);
    cat.add_dir("/about/".to_owned(), about_children);

    let mut secrets_children: Vec<String> = Vec::new();
    secrets_children.push("shhh".to_owned());
    assert(secrets_children.deep_view() =~= seq!["shhh"@]);
    cat.add_dir("/about/secrets/".to_owned(), secrets_children);

    let mut projects_children: Vec<String> = Vec::new();
    projects_children.push("summary".to_owned());
    assert(projects_children.deep_view() =~= seq!["summary"@]);
    cat.add_dir("/projects/".to_owned(), projects_children);

    let work_children: Vec<String> = Vec::new();
    assert(work_children.deep_view() =~= Seq::<Seq<char>>::empty());
    cat.add_dir("/work/".to_owned(), work_children);

    let mut random_children: Vec<String> = Vec::new();
    random_children.push("warp".to_owned());
    random_children.push("rules_of_internet".to_owned());
    assert(random_children.deep_view() =~= seq!["warp"@, "rules_of_internet"@]);
    cat.add_dir("/random/".to_owned(), random_children);

    cat.add_file(
        "/about/summary".to_owned(),
        "This project is built in Rust, using Dioxus, and some CSS.".to_owned(),
    );
    cat.add_file(
        "/about/secrets/shhh".to_owned(),
        "There's an `exit` command. Don't try that.".to_owned(),
    );
    cat.add_file(
        "/projects/summary".to_owned(),
        "Let me talk about this one. I worked 4 days on building this after two years of not using Rust. I'd used Rust for 3 months before this, and I'd never heard of Dioxus before. Here we are. I'm a quick learner and I love to push myself to learn.".to_owned(),
    );
    cat.add_file(
        "/random/warp".to_owned(),
        "I think Warp is pretty cool. I'd love to be a part of the team, and contribute to making it a great product.".to_owned(),
    );
    cat.add_file(
        "/random/rules_of_internet".to_owned(),
        "It's silly, and mostly trolls. Of course, it's on a chan! Look up rule 16.".to_owned(),
    );

    assert(cat.dirs_view() =~= default_dirs());
    assert(cat.files_view() =~= default_files());
    proof {
        lemma_default_catalog_wf(cat);
    }
    cat
}

/// The built-in tables satisfy the catalog invariant: the root exists and
/// every directory child has its own key.
proof fn lemma_default_catalog_wf(cat: Catalog)
    requires
        cat.dirs_view() == default_dirs(),
        cat.files_view() == default_files(),
    ensures
        cat.wf(),
{
    reveal_strlit("/");
    reveal_strlit("/about/");
    reveal_strlit("/about/secrets/");
    reveal_strlit("/projects/");
    reveal_strlit("/work/");
    reveal_strlit("/random/");
    reveal_strlit("about/");
    reveal_strlit("projects/");
    reveal_strlit("work/");
    reveal_strlit("random/");
    reveal_strlit("summary");
    reveal_strlit("secrets/");
    reveal_strlit("shhh");
    reveal_strlit("warp");
    reveal_strlit("rules_of_internet");
    assert(cat.is_dir("/"@));
    assert forall|p: Seq<char>, j: int|
        cat.is_dir(p) && 0 <= j < cat.children_of(p).len() implies cat.child_ok(
        p,
        #[trigger] cat.children_of(p)[j],
    ) by {
        if p == "/"@ {
            assert("/"@ + "about/"@ =~= "/about/"@);
            assert("/"@ + "projects/"@ =~= "/projects/"@);
            assert("/"@ + "work/"@ =~= "/work/"@);
            assert("/"@ + "random/"@ =~= "/random/"@);
            assert(cat.child_ok(p, cat.children_of(p)[j]));
        } else if p == "/about/"@ {
            assert("/about/"@ + "secrets/"@ =~= "/about/secrets/"@);
            assert(cat.child_ok(p, cat.children_of(p)[j]));
        } else {
            assert(cat.child_ok(p, cat.children_of(p)[j]));
        }
    }
}

} // verus!
