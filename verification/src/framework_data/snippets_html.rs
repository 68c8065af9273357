//! Markup snippets that hold for every framework set.

use vstd::prelude::*;

verus! {

/// The markup snippet table, indented with `ts`.
pub open spec fn spec_snippets_html(ts: Seq<char>) -> Seq<(Seq<char>, Seq<char>)> {
    seq![
        ("vcomponent"@, "<component :is=\"${1:componentId}\"></component>$0"@),
        ("vka"@, "<keep-alive$1>\n"@ + ts + "$2\n</keep-alive>$0"@),
        ("vtransition"@, "<transition$1>\n"@ + ts + "$2\n</transition>$0"@),
        ("vtg"@, "<transition-group$1>\n"@ + ts + "$2\n</transition-group>"@),
        ("vrl"@, "<router-link $1>$2</router-link>$0"@),
        ("vrlt"@, "<router-link to=\"$1\">$2</router-link>$0"@),
        ("vrv"@, "<router-view>$1</router-view>$0"@),
    ]
}

/// The markup snippet table.
pub fn get_snippets(ts: &str) -> (r: Vec<(String, String)>)
    ensures
        crate::framework_data::str_table_view(r@) == spec_snippets_html(ts@),
{
    let mut out: Vec<(String, String)> = Vec::new();
    out.push(
        ("vcomponent".to_owned(), "<component :is=\"${1:componentId}\"></component>$0".to_owned()),
    );
    let mut ka = "<keep-alive$1>\n".to_owned();
    ka.append(ts);
    ka.append("$2\n</keep-alive>$0");
    out.push(("vka".to_owned(), ka));
    let mut tr = "<transition$1>\n".to_owned();
    tr.append(ts);
    tr.append("$2\n</transition>$0");
    out.push(("vtransition".to_owned(), tr));
    let mut tg = "<transition-group$1>\n".to_owned();
    tg.append(ts);
    tg.append("$2\n</transition-group>");
    out.push(("vtg".to_owned(), tg));
    out.push(("vrl".to_owned(), "<router-link $1>$2</router-link>$0".to_owned()));
    out.push(("vrlt".to_owned(), "<router-link to=\"$1\">$2</router-link>$0".to_owned()));
    out.push(("vrv".to_owned(), "<router-view>$1</router-view>$0".to_owned()));
    proof {
        assert(crate::framework_data::str_table_view(out@) =~~= spec_snippets_html(ts@));
    }
    out
}

} // verus!
