//! Classification of one project file for the component index: the name a
//! file contributes and the path it is imported by.  Walking the project
//! tree itself is the host's concern; it hands each file name and relative
//! path down to `traverse_add`.

use vstd::prelude::*;

use crate::text::{
    ends_with, occurs_at, rfind_all, rfind_sub_all, find_sub, contains_sub, starts_with,
    push_char, replace_char,
};

verus! {

/// A file found for the component index.
#[derive(Clone, Debug)]
pub struct VueFile {
    pub name: String,
    pub path: String,
}

/// Every `/`-separated field of `s`, empty fields kept, collected with
/// `cur` as the field under construction.
pub open spec fn fields_acc(s: Seq<char>, i: int, cur: Seq<char>) -> Seq<Seq<char>>
    decreases s.len() - i,
{
    if i < 0 || i >= s.len() {
        seq![cur]
    } else if s[i] == '/' {
        seq![cur] + fields_acc(s, i + 1, Seq::<char>::empty())
    } else {
        fields_acc(s, i + 1, cur.push(s[i]))
    }
}

/// The `/`-separated fields of `s`, empty fields kept.
pub open spec fn slash_fields(s: Seq<char>) -> Seq<Seq<char>> {
    fields_acc(s, 0, Seq::<char>::empty())
}

/// The display name a file contributes: the part before the last
/// occurrence of the suffix (or before the last dot when no suffix is
/// given), with one leading dash dropped.
pub open spec fn spec_entry_name(file: Seq<char>, poster: Seq<char>) -> Seq<char> {
    let base = if poster.len() > 0 {
        match rfind_all(file, poster) {
            Some(idx) => file.subrange(0, idx),
            None => file,
        }
    } else {
        match crate::text::last_dot(file) {
            Some(idx) => file.subrange(0, idx),
            None => file,
        }
    };
    if base.len() > 0 && base[0] == '-' {
        base.subrange(1, base.len() as int)
    } else {
        base
    }
}

/// The import path a file contributes: the relative path in forward-slash
/// form, with the alias substituted for the configured prefix.
pub open spec fn spec_entry_path(
    dir: Seq<char>,
    alias: Seq<char>,
    prefix: Seq<char>,
) -> Seq<char> {
    let slashed = dir.map_values(
        |c: char|
            if c == '\\' {
                '/'
            } else {
                c
            },
    );
    if alias.len() > 0 && prefix.len() > 0 && occurs_at(slashed, prefix, 0) {
        alias + slashed.subrange(prefix.len() as int, slashed.len() as int)
    } else {
        slashed
    }
}

/// The entries one file contributes to the component index: none when the
/// suffix or the search text does not match, the named entry otherwise,
/// and a second entry named after the parent directory for `index` files.
pub open spec fn spec_traverse_add(
    file: Seq<char>,
    dir: Seq<char>,
    alias: Seq<char>,
    prefix: Seq<char>,
    poster: Seq<char>,
    search: Seq<char>,
) -> Seq<(Seq<char>, Seq<char>)> {
    if poster.len() > 0 && !(poster.len() <= file.len() && occurs_at(
        file,
        poster,
        file.len() - poster.len(),
    )) {
        Seq::empty()
    } else if !(search.len() == 0 || contains_sub(dir, search)) {
        Seq::empty()
    } else {
        let name = spec_entry_name(file, poster);
        let path = spec_entry_path(dir, alias, prefix);
        let first = seq![(name, path)];
        if name == "index"@ {
            let slashed = dir.map_values(
                |c: char|
                    if c == '\\' {
                        '/'
                    } else {
                        c
                    },
            );
            let parts = slash_fields(slashed);
            if parts.len() >= 2 {
                first + seq![(parts[parts.len() - 2], path)]
            } else {
                first
            }
        } else {
            first
        }
    }
}

/// The contributed entries as name and path pairs.
pub open spec fn files_view(files: Seq<VueFile>) -> Seq<(Seq<char>, Seq<char>)> {
    files.map_values(|f: VueFile| (f.name@, f.path@))
}

/// The `/`-separated fields of `s`, empty fields kept.
fn split_fields(s: &str) -> (r: Vec<String>)
    ensures
        r@.map_values(|p: String| p@) == slash_fields(s@),
{
    let n = s.unicode_len();
    let mut parts: Vec<String> = Vec::new();
    let mut cur = String::new();
    let mut i: usize = 0;
    proof {
        assert(parts@.map_values(|p: String| p@) + fields_acc(s@, 0, cur@) =~~= slash_fields(s@));
    }
    while i < n
        invariant
            0 <= i <= n,
            n == s@.len(),
            parts@.map_values(|p: String| p@) + fields_acc(s@, i as int, cur@) == slash_fields(
                s@,
            ),
        decreases n - i,
    {
        let ghost cur_entry = cur@;
        let ghost parts_entry = parts@.map_values(|p: String| p@);
        let c = s.get_char(i);
        if c == '/' {
            parts.push(cur);
            cur = String::new();
            proof {
                assert(cur@ =~= Seq::<char>::empty());
                assert(parts@.map_values(|p: String| p@) =~~= parts_entry + seq![cur_entry]);
                assert((parts_entry + seq![cur_entry]) + fields_acc(s@, i + 1, cur@)
                    =~~= parts_entry + (seq![cur_entry] + fields_acc(s@, i + 1, cur@)));
            }
        } else {
            push_char(&mut cur, c);
            proof {
                assert(cur@ == cur_entry.push(s@[i as int]));
            }
        }
        i = i + 1;
    }
    let ghost parts_entry = parts@.map_values(|p: String| p@);
    let ghost cur_entry = cur@;
    parts.push(cur);
    proof {
        assert(parts@.map_values(|p: String| p@) =~~= parts_entry + seq![cur_entry]);
    }
    parts
}

/// Add the entries one file contributes to the component index.
pub fn traverse_add(
    root_path: &str,
    dir: &str,
    files: &mut Vec<VueFile>,
    prefix_alias: &str,
    prefix_path: &str,
    poster: &str,
    search: &str,
)
    ensures
        files_view(final(files)@) == files_view(old(files)@) + spec_traverse_add(
            root_path@,
            dir@,
            prefix_alias@,
            prefix_path@,
            poster@,
            search@,
        ),
{
    let ghost before = files_view(files@);
    let poster_len = poster.unicode_len();
    if poster_len > 0 && !ends_with(root_path, poster) {
        proof {
            assert(files_view(files@) =~~= before + spec_traverse_add(
                root_path@,
                dir@,
                prefix_alias@,
                prefix_path@,
                poster@,
                search@,
            ));
        }
        return ;
    }
    let search_hit = if search.unicode_len() == 0 {
        true
    } else {
        match find_sub(dir, search) {
            Some(_) => true,
            None => false,
        }
    };
    if !search_hit {
        proof {
            assert(files_view(files@) =~~= before + spec_traverse_add(
                root_path@,
                dir@,
                prefix_alias@,
                prefix_path@,
                poster@,
                search@,
            ));
        }
        return ;
    }

    // the display name
    let file_len = root_path.unicode_len();
    let base: &str = if poster_len > 0 {
        match rfind_sub_all(root_path, poster) {
            Some(idx) => root_path.substring_char(0, idx),
            None => {
                proof {
                    assert(root_path@.subrange(0, file_len as int) =~= root_path@);
                }
                root_path.substring_char(0, file_len)
            },
        }
    } else {
        match crate::text::last_dot_idx(root_path) {
            Some(idx) => root_path.substring_char(0, idx),
            None => {
                proof {
                    assert(root_path@.subrange(0, file_len as int) =~= root_path@);
                }
                root_path.substring_char(0, file_len)
            },
        }
    };
    let base_len = base.unicode_len();
    let name: String = if base_len > 0 && base.get_char(0) == '-' {
        base.substring_char(1, base_len).to_owned()
    } else {
        proof {
            assert(base@.subrange(0, base_len as int) =~= base@);
        }
        base.substring_char(0, base_len).to_owned()
    };
    proof {
        assert(name@ == spec_entry_name(root_path@, poster@));
    }

    // the import path
    let slashed = replace_char(dir, '\\', '/');
    proof {
        assert(slashed@ =~= dir@.map_values(
            |c: char|
                if c == '\\' {
                    '/'
                } else {
                    c
                },
        ));
    }
    let slen = slashed.as_str().unicode_len();
    let path: String = if prefix_alias.unicode_len() > 0 && prefix_path.unicode_len() > 0
        && starts_with(slashed.as_str(), prefix_path) {
        let mut p = prefix_alias.to_owned();
        p.append(slashed.as_str().substring_char(prefix_path.unicode_len(), slen));
        p
    } else {
        slashed.as_str().to_owned()
    };
    proof {
        assert(path@ == spec_entry_path(dir@, prefix_alias@, prefix_path@));
    }

    let is_index = crate::text::str_eq(name.as_str(), "index");
    let path2 = path.as_str().to_owned();
    let name_v = name;
    files.push(VueFile { name: name_v, path });
    proof {
        assert(files_view(files@) =~~= before + seq![
            (
                spec_entry_name(root_path@, poster@),
                spec_entry_path(dir@, prefix_alias@, prefix_path@),
            ),
        ]);
    }
    if is_index {
        let parts = split_fields(slashed.as_str());
        if parts.len() >= 2 {
            let parent = parts[parts.len() - 2].as_str().to_owned();
            let ghost mid = files_view(files@);
            files.push(VueFile { name: parent, path: path2 });
            proof {
                let pv = slash_fields(slashed@);
                assert(files_view(files@) =~~= mid + seq![(pv[pv.len() - 2], spec_entry_path(
                    dir@,
                    prefix_alias@,
                    prefix_path@,
                ))]);
                assert(files_view(files@) =~~= before + spec_traverse_add(
                    root_path@,
                    dir@,
                    prefix_alias@,
                    prefix_path@,
                    poster@,
                    search@,
                ));
            }
            return ;
        }
    }
    proof {
        assert(files_view(files@) =~~= before + spec_traverse_add(
            root_path@,
            dir@,
            prefix_alias@,
            prefix_path@,
            poster@,
            search@,
        ));
    }
}

} // verus!
