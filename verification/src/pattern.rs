//! Consumed contract of the url-pattern matcher: compiling a pattern
//! set into a matcher with a name slot, and matching a path against it
//! with parameter extraction. The matcher itself is an outside
//! collaborator; this module also holds the verified trailing-slash
//! normalization applied to pattern sets before compilation.

use vstd::prelude::*;

use actix_router::ResourceDef;

verus! {

/// The url-pattern matcher type of the routing collaborator, declared
/// so it can stand in fields and signatures; its inside stays opaque.
#[verifier::external_type_specification]
#[verifier::external_body]
pub struct ExResourceDef(ResourceDef);

/// The pattern set a compiled matcher was built from.
pub uninterp spec fn rdef_patterns(rd: ResourceDef) -> Seq<Seq<char>>;

/// The name attached to a compiled matcher, used for reverse url
/// generation; empty when never set.
pub uninterp spec fn rdef_name(rd: ResourceDef) -> Seq<char>;

/// What matching a path against a compiled pattern set yields: the
/// captured (name, value) bindings on a match, nothing otherwise. The
/// result depends on the pattern set and the path alone.
pub uninterp spec fn path_captures(patterns: Seq<Seq<char>>, path: Seq<char>) -> Option<
    Seq<(Seq<char>, Seq<char>)>,
>;

/// Characters that can stand in the literal parts of a pattern,
/// outside placeholder braces. Expression-operator characters are kept
/// out because a placeholder-free pattern in a multi-pattern set is
/// compiled as expression text unescaped, and a malformed expression
/// makes the compiler panic.
pub open spec fn literal_pattern_char(c: char) -> bool {
    c != '{' && c != '}' && c != '(' && c != ')' && c != '[' && c != ']' && c != '*' && c != '+'
        && c != '?' && c != '|' && c != '\\'
}

/// Characters a placeholder name may start with: the compiled
/// expression's capture-group names must begin with a letter or an
/// underscore.
pub open spec fn name_start_char(c: char) -> bool {
    c == '_' || ('a' <= c && c <= 'z') || ('A' <= c && c <= 'Z')
}

/// Characters a placeholder name may continue with.
pub open spec fn name_char(c: char) -> bool {
    name_start_char(c) || ('0' <= c && c <= '9')
}

/// Scan of a pattern's structure from position `i`: literal characters
/// outside braces, and `{name}` placeholder segments whose names are
/// non-empty, start with a letter or underscore, and continue with
/// letters, digits or underscores. `inside` says whether the scan
/// stands inside a placeholder, `name_len` how much of its name was
/// seen, `segs` how many placeholders were opened; at most 16
/// placeholders are accepted, the matcher's limit on dynamic segments.
pub open spec fn segments_wf(
    p: Seq<char>,
    i: int,
    inside: bool,
    name_len: nat,
    segs: nat,
) -> bool
    decreases p.len() - i,
{
    if i < 0 || i >= p.len() {
        !inside && segs <= 16
    } else if inside {
        if p[i] == '}' {
            name_len > 0 && segments_wf(p, i + 1, false, 0, segs)
        } else if name_len == 0 {
            name_start_char(p[i]) && segments_wf(p, i + 1, true, 1, segs)
        } else {
            name_char(p[i]) && segments_wf(p, i + 1, true, name_len + 1, segs)
        }
    } else {
        if p[i] == '{' {
            segs < 16 && segments_wf(p, i + 1, true, 0, (segs + 1) as nat)
        } else {
            literal_pattern_char(p[i]) && segments_wf(p, i + 1, false, 0, segs)
        }
    }
}

/// The placeholder names of a pattern, in order, scanned from
/// position `i` with `cur` the partial name of an open placeholder.
pub open spec fn placeholder_names(p: Seq<char>, i: int, inside: bool, cur: Seq<char>) -> Seq<
    Seq<char>,
>
    decreases p.len() - i,
{
    if i < 0 || i >= p.len() {
        Seq::empty()
    } else if inside {
        if p[i] == '}' {
            seq![cur] + placeholder_names(p, i + 1, false, Seq::empty())
        } else {
            placeholder_names(p, i + 1, true, cur.push(p[i]))
        }
    } else {
        if p[i] == '{' {
            placeholder_names(p, i + 1, true, Seq::empty())
        } else {
            placeholder_names(p, i + 1, false, cur)
        }
    }
}

/// A pattern the matcher compiles without failing: well-formed
/// placeholder structure, and pairwise-distinct placeholder names,
/// since the compiled expression rejects duplicate capture names.
pub open spec fn pattern_wf(p: Seq<char>) -> bool {
    &&& segments_wf(p, 0, false, 0, 0)
    &&& {
        let names = placeholder_names(p, 0, false, Seq::empty());
        forall|i: int, j: int| 0 <= i < j < names.len() ==> names[i] != names[j]
    }
}

/// Total character count of a pattern set.
pub open spec fn set_chars(ps: Seq<Seq<char>>) -> nat
    decreases ps.len(),
{
    if ps.len() == 0 {
        0
    } else {
        set_chars(ps.drop_last()) + ps.last().len()
    }
}

/// A pattern set the matcher compiles without failing: every pattern
/// well formed, and the whole set at most 16384 characters — at most
/// 2^16 encoded bytes — which keeps the compiled expressions far under
/// the expression engine's compiled-size limit.
pub open spec fn patterns_ok(ps: Seq<Seq<char>>) -> bool {
    &&& forall|i: int| 0 <= i < ps.len() ==> pattern_wf(#[trigger] ps[i])
    &&& set_chars(ps) <= 16384
}

/// The character sequences of a sequence of strings.
pub open spec fn views_of(ps: Seq<String>) -> Seq<Seq<char>> {
    ps.map_values(|s: String| s@)
}

/// Relies on actix_router::ResourceDef::new: compiles the pattern set
/// into a matcher carrying those patterns and an empty name. The
/// `requires` keeps out exactly the inputs on which compilation
/// panics: malformed or nested placeholder segments, empty, invalid or
/// duplicate placeholder names, custom per-segment expressions, more
/// than 16 placeholders, operator characters in literal text, and
/// pattern text large enough to breach the expression engine's
/// compiled-size limit.
#[verifier::external_body]
pub fn compile(patterns: Vec<String>) -> (rd: ResourceDef)
    requires
        patterns_ok(views_of(patterns@)),
    ensures
        rdef_patterns(rd) == views_of(patterns@),
        rdef_name(rd) == Seq::<char>::empty(),
{
    ResourceDef::new(patterns)
}

/// Relies on actix_router::ResourceDef::name_mut: replaces the
/// matcher's name, leaving its patterns as they are.
#[verifier::external_body]
pub fn set_name(rd: &mut ResourceDef, name: &str)
    ensures
        rdef_patterns(*final(rd)) == rdef_patterns(*old(rd)),
        rdef_name(*final(rd)) == name@,
{
    *rd.name_mut() = name.to_string();
}

/// Relies on actix_router::ResourceDef::name: reads the attached name
/// back.
#[verifier::external_body]
pub fn get_name(rd: &ResourceDef) -> (r: String)
    ensures
        r@ == rdef_name(*rd),
{
    rd.name().to_string()
}

/// Relies on actix_router::ResourceDef::match_path: matches the path
/// against the compiled pattern set and hands the captured bindings
/// out. The byte-length bound keeps the matcher's 16-bit offsets from
/// truncating.
#[verifier::external_body]
pub fn capture(rd: &ResourceDef, path: &str) -> (r: Option<Vec<(String, String)>>)
    requires
        vstd::utf8::encode_utf8(path@).len() <= 65535,
    ensures
        r is Some <==> path_captures(rdef_patterns(*rd), path@) is Some,
        r matches Some(ps) ==> Some(ps@.map_values(|p: (String, String)| (p.0@, p.1@)))
            == path_captures(rdef_patterns(*rd), path@),
{
    let mut matched = actix_router::Path::new(path);
    if rd.match_path(&mut matched) {
        let mut out: Vec<(String, String)> = Vec::new();
        for (k, v) in matched.iter() {
            out.push((k.to_string(), v.to_string()));
        }
        Some(out)
    } else {
        None
    }
}

/// The two pattern texts one pattern normalizes to: a leading slash is
/// inserted where missing, and a trailing-slash twin is added so the
/// route answers the path with and without a final slash. An empty
/// pattern passes through untouched.
pub open spec fn normalize_one(p: Seq<char>) -> Seq<Seq<char>> {
    if p.len() == 0 {
        seq![p]
    } else {
        let q = if p[0] == '/' {
            p
        } else {
            seq!['/'] + p
        };
        if q[q.len() - 1] == '/' {
            seq![q]
        } else {
            seq![q, q + seq!['/']]
        }
    }
}

/// Slash normalization of a whole pattern set, in order.
pub open spec fn insert_slash_spec(ps: Seq<Seq<char>>) -> Seq<Seq<char>>
    decreases ps.len(),
{
    if ps.len() == 0 {
        Seq::empty()
    } else {
        insert_slash_spec(ps.drop_last()) + normalize_one(ps.last())
    }
}

/// The pattern set a registration compiles, as a function of the
/// registration context: patterns are slash-normalized when the
/// context is the application root or the set is non-empty; a non-root
/// context with an empty set inherits its parent's path untouched.
pub open spec fn normalized_patterns(is_root: bool, ps: Seq<Seq<char>>) -> Seq<Seq<char>> {
    if is_root || ps.len() > 0 {
        insert_slash_spec(ps)
    } else {
        ps
    }
}

/// Trailing-slash policy, normalizing side: in a context that
/// normalizes (the application root, or any non-empty pattern set), a
/// single pattern with neither a leading nor a trailing slash
/// registers both its slash-prefixed form and that form's
/// trailing-slash twin, so the route answers the path with and
/// without a final slash.
pub proof fn lemma_trailing_slash_variants(p: Seq<char>)
    requires
        p.len() > 0,
        p[0] != '/',
        p[p.len() - 1] != '/',
    ensures
        normalized_patterns(true, seq![p]) == seq![seq!['/'] + p, (seq!['/'] + p) + seq!['/']],
        normalized_patterns(false, seq![p]) == normalized_patterns(true, seq![p]),
{
    let ps = seq![p];
    assert(ps.drop_last() =~= Seq::<Seq<char>>::empty());
    assert(ps.last() == p);
    let q = seq!['/'] + p;
    assert(q[q.len() - 1] == p[p.len() - 1]);
    assert(insert_slash_spec(Seq::<Seq<char>>::empty()) =~= Seq::<Seq<char>>::empty());
    assert(insert_slash_spec(ps) == insert_slash_spec(ps.drop_last()) + normalize_one(p));
    assert(insert_slash_spec(ps) =~= normalize_one(p));
    assert(normalize_one(p) =~= seq![q, q + seq!['/']]);
}

/// Trailing-slash policy, inheriting side: a non-root context with an
/// empty pattern set is left untouched, gaining no trailing-slash
/// variant; the sub-scope inherits its parent's full path.
pub proof fn lemma_non_root_empty_unchanged(ps: Seq<Seq<char>>)
    requires
        ps.len() == 0,
    ensures
        normalized_patterns(false, ps) == ps,
{
}

/// Appending a literal character to a pattern leaves every scan of it
/// unchanged: the scan walks the same characters, and the new final
/// literal is accepted exactly when the scan ends outside a
/// placeholder, as the base case already demands.
proof fn lemma_scan_push_literal(
    p: Seq<char>,
    c: char,
    i: int,
    inside: bool,
    name_len: nat,
    segs: nat,
)
    requires
        0 <= i <= p.len(),
        literal_pattern_char(c),
    ensures
        segments_wf(p.push(c), i, inside, name_len, segs) == segments_wf(
            p,
            i,
            inside,
            name_len,
            segs,
        ),
    decreases p.len() - i,
{
    if i == p.len() {
        assert(p.push(c)[i] == c);
        if inside {
            assert(!segments_wf(p.push(c), i + 1, true, 1, segs));
            assert(!segments_wf(p.push(c), i + 1, true, (name_len + 1) as nat, segs));
        } else {
            assert(segments_wf(p.push(c), i + 1, false, 0, segs) == (segs <= 16));
        }
    } else {
        assert(p.push(c)[i] == p[i]);
        if inside {
            if p[i] == '}' {
                lemma_scan_push_literal(p, c, i + 1, false, 0, segs);
            } else if name_len == 0 {
                lemma_scan_push_literal(p, c, i + 1, true, 1, segs);
            } else {
                lemma_scan_push_literal(p, c, i + 1, true, (name_len + 1) as nat, segs);
            }
        } else {
            if p[i] == '{' {
                lemma_scan_push_literal(p, c, i + 1, true, 0, (segs + 1) as nat);
            } else {
                lemma_scan_push_literal(p, c, i + 1, false, 0, segs);
            }
        }
    }
}

/// Appending a literal character adds no placeholder, so the
/// placeholder names are unchanged.
proof fn lemma_names_push_literal(p: Seq<char>, c: char, i: int, inside: bool, cur: Seq<char>)
    requires
        0 <= i <= p.len(),
        literal_pattern_char(c),
    ensures
        placeholder_names(p.push(c), i, inside, cur) == placeholder_names(p, i, inside, cur),
    decreases p.len() - i,
{
    if i == p.len() {
        assert(p.push(c)[i] == c);
        if inside {
            assert(placeholder_names(p.push(c), i + 1, true, cur.push(c)) =~= Seq::<
                Seq<char>,
            >::empty());
        } else {
            assert(placeholder_names(p.push(c), i + 1, false, cur) =~= Seq::<Seq<char>>::empty());
        }
        assert(placeholder_names(p.push(c), i, inside, cur) =~= placeholder_names(
            p,
            i,
            inside,
            cur,
        ));
    } else {
        assert(p.push(c)[i] == p[i]);
        if inside {
            if p[i] == '}' {
                lemma_names_push_literal(p, c, i + 1, false, Seq::empty());
            } else {
                lemma_names_push_literal(p, c, i + 1, true, cur.push(p[i]));
            }
        } else {
            if p[i] == '{' {
                lemma_names_push_literal(p, c, i + 1, true, Seq::empty());
            } else {
                lemma_names_push_literal(p, c, i + 1, false, cur);
            }
        }
    }
}

/// Character count distributes over concatenation of pattern sets.
proof fn lemma_set_chars_concat(a: Seq<Seq<char>>, b: Seq<Seq<char>>)
    ensures
        set_chars(a + b) == set_chars(a) + set_chars(b),
    decreases b.len(),
{
    if b.len() == 0 {
        assert(a + b =~= a);
    } else {
        assert((a + b).drop_last() =~= a + b.drop_last());
        assert((a + b).last() == b.last());
        lemma_set_chars_concat(a, b.drop_last());
    }
}

/// Normalizing one slash-leading compilable pattern yields compilable
/// patterns of at most twice its size plus one.
proof fn lemma_normalize_one_wf(p: Seq<char>)
    requires
        pattern_wf(p),
        p.len() > 0,
        p[0] == '/',
    ensures
        forall|k: int|
            0 <= k < normalize_one(p).len() ==> pattern_wf(#[trigger] normalize_one(p)[k]),
        set_chars(normalize_one(p)) <= 2 * p.len() + 1,
{
    let twin = p + seq!['/'];
    assert(twin =~= p.push('/'));
    lemma_scan_push_literal(p, '/', 0, false, 0, 0);
    lemma_names_push_literal(p, '/', 0, false, Seq::empty());
    assert(pattern_wf(twin));
    if p[p.len() - 1] == '/' {
        assert(normalize_one(p) =~= seq![p]);
        assert(set_chars(seq![p].drop_last()) == 0);
        assert(set_chars(normalize_one(p)) == p.len());
    } else {
        assert(normalize_one(p) =~= seq![p, twin]);
        assert(seq![p, twin].last() == twin);
        assert(set_chars(seq![p, twin]) == set_chars(seq![p, twin].drop_last()) + twin.len());
        assert(seq![p, twin].drop_last() =~= seq![p]);
        assert(set_chars(seq![p]) == set_chars(seq![p].drop_last()) + p.len());
        assert(set_chars(seq![p].drop_last()) == 0);
        assert(set_chars(normalize_one(p)) == p.len() + twin.len());
    }
}

/// Slash normalization of a whole set of slash-leading compilable
/// patterns yields compilable patterns of bounded total size.
proof fn lemma_insert_slash_wf(ps: Seq<Seq<char>>)
    requires
        forall|i: int|
            0 <= i < ps.len() ==> pattern_wf(#[trigger] ps[i]) && ps[i].len() > 0 && ps[i][0]
                == '/',
    ensures
        forall|k: int|
            0 <= k < insert_slash_spec(ps).len() ==> pattern_wf(
                #[trigger] insert_slash_spec(ps)[k],
            ),
        set_chars(insert_slash_spec(ps)) <= 2 * set_chars(ps) + ps.len(),
    decreases ps.len(),
{
    if ps.len() == 0 {
        assert(set_chars(insert_slash_spec(ps)) == 0);
    } else {
        let head_part = insert_slash_spec(ps.drop_last());
        let tail_part = normalize_one(ps.last());
        assert(forall|i: int|
            0 <= i < ps.drop_last().len() ==> pattern_wf(#[trigger] ps.drop_last()[i])
                && ps.drop_last()[i].len() > 0 && ps.drop_last()[i][0] == '/');
        lemma_insert_slash_wf(ps.drop_last());
        lemma_normalize_one_wf(ps.last());
        lemma_set_chars_concat(head_part, tail_part);
        assert(set_chars(ps) == set_chars(ps.drop_last()) + ps.last().len());
        assert forall|k: int|
            0 <= k < insert_slash_spec(ps).len() implies pattern_wf(
            #[trigger] insert_slash_spec(ps)[k],
        ) by {
            if k < head_part.len() {
                assert(insert_slash_spec(ps)[k] == head_part[k]);
            } else {
                assert(insert_slash_spec(ps)[k] == tail_part[k - head_part.len()]);
            }
        }
    }
}

/// Slash normalization keeps a compilable set compilable: for a set of
/// slash-leading well-formed patterns with size headroom, the
/// registration context's normalized pattern set satisfies the
/// compiler's precondition, whatever the context. This is how a
/// caller of the registration discharges its precondition from facts
/// about the raw pattern set alone.
pub proof fn lemma_normalized_patterns_ok(is_root: bool, ps: Seq<Seq<char>>)
    requires
        forall|i: int|
            0 <= i < ps.len() ==> pattern_wf(#[trigger] ps[i]) && ps[i].len() > 0 && ps[i][0]
                == '/',
        2 * set_chars(ps) + ps.len() <= 16384,
    ensures
        patterns_ok(normalized_patterns(is_root, ps)),
{
    lemma_insert_slash_wf(ps);
}

/// Apply slash normalization to a pattern set: each pattern gains a
/// leading slash where missing and a trailing-slash twin where it does
/// not already end in one.
pub fn insert_slash(patterns: Vec<String>) -> (r: Vec<String>)
    ensures
        views_of(r@) == insert_slash_spec(views_of(patterns@)),
{
    let mut r: Vec<String> = Vec::new();
    let mut i: usize = 0;
    while i < patterns.len()
        invariant
            0 <= i <= patterns@.len(),
            views_of(r@) == insert_slash_spec(views_of(patterns@).subrange(0, i as int)),
        decreases patterns@.len() - i,
    {
        let ghost pre = views_of(r@);
        let ghost prefix = views_of(patterns@).subrange(0, i as int);
        let ghost prefix1 = views_of(patterns@).subrange(0, i + 1 as int);
        proof {
            assert(prefix1.drop_last() =~= prefix);
            assert(prefix1.last() == patterns@[i as int]@);
        }
        let p: &String = &patterns[i];
        let plen: usize = p.as_str().unicode_len();
        if plen == 0 {
            r.push(p.clone());
            proof {
                assert(normalize_one(p@) =~= seq![p@]);
                assert(views_of(r@) =~= pre + normalize_one(p@));
            }
        } else {
            let q: String = if p.as_str().get_char(0) == '/' {
                p.clone()
            } else {
                let slash: String = String::from_str("/");
                proof {
                    reveal_strlit("/");
                    assert(slash@ =~= seq!['/']);
                }
                slash.concat(p.as_str())
            };
            proof {
                assert(q@ == (if p@[0] == '/' {
                    p@
                } else {
                    seq!['/'] + p@
                }));
            }
            let qlen: usize = q.as_str().unicode_len();
            if q.as_str().get_char(qlen - 1) == '/' {
                r.push(q);
                proof {
                    assert(views_of(r@) =~= pre + normalize_one(p@));
                }
            } else {
                let q2: String = q.clone().concat("/");
                proof {
                    reveal_strlit("/");
                    assert("/"@ =~= seq!['/']);
                }
                r.push(q);
                r.push(q2);
                proof {
                    assert(views_of(r@) =~= pre + normalize_one(p@));
                }
            }
        }
        proof {
            assert(insert_slash_spec(prefix1) == insert_slash_spec(prefix) + normalize_one(
                patterns@[i as int]@,
            ));
        }
        i += 1;
    }
    proof {
        assert(views_of(patterns@).subrange(0, patterns@.len() as int) =~= views_of(patterns@));
    }
    r
}

} // verus!
