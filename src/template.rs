use vstd::prelude::*;

verus! {

/// Placeholder replaced by the project's name.
pub const NAME_PLACEHOLDER: &'static str = "{{PROJECT_NAME}}";

/// Placeholder replaced by the numeric language standard.
pub const VERSION_PLACEHOLDER: &'static str = "{{PROJECT_VERSION}}";

/// Build configuration written to `CMakeLists.txt`.
pub const CMAKELISTS_TEMPLATE: &'static str = "cmake_minimum_required(VERSION 3.20)\nproject({{PROJECT_NAME}} LANGUAGES CXX)\n\nset(CMAKE_CXX_STANDARD {{PROJECT_VERSION}})\nset(CMAKE_CXX_STANDARD_REQUIRED ON)\nset(CMAKE_CXX_EXTENSIONS OFF)\nset(CMAKE_EXPORT_COMPILE_COMMANDS ON)\n\nadd_executable(${PROJECT_NAME} src/main.cpp)\n";

/// Ignore rules written to `.gitignore`.
pub const GITIGNORE_TEMPLATE: &'static str = "build/\n.cache/\ncompile_commands.json\n";

/// Editor integration written to `.clangd`.
pub const CLANGD_TEMPLATE: &'static str = "CompileFlags:\n  CompilationDatabase: build\n";

/// Starter source for C++20 projects.
pub const MAIN_CPP20_TEMPLATE: &'static str = "#include <iostream>\n\nint main() {\n    std::cout << \"Hello, world!\" << std::endl;\n    return 0;\n}\n";

/// Starter source for C++23 projects.
pub const MAIN_CPP23_TEMPLATE: &'static str = "#include <print>\n\nint main() {\n    std::println(\"Hello, world!\");\n    return 0;\n}\n";

pub open spec fn name_placeholder() -> Seq<char> {
    seq!['{', '{', 'P', 'R', 'O', 'J', 'E', 'C', 'T', '_', 'N', 'A', 'M', 'E', '}', '}']
}

pub open spec fn version_placeholder() -> Seq<char> {
    seq!['{', '{', 'P', 'R', 'O', 'J', 'E', 'C', 'T', '_', 'V', 'E', 'R', 'S', 'I', 'O', 'N', '}', '}']
}

/// `p` occurs in `s` at position `i`.
pub open spec fn occurs_at(s: Seq<char>, p: Seq<char>, i: int) -> bool {
    0 <= i && i + p.len() <= s.len() && s.subrange(i, i + p.len()) == p
}

/// `p` occurs somewhere in `s`.
pub open spec fn contains(s: Seq<char>, p: Seq<char>) -> bool {
    exists|i: int| occurs_at(s, p, i)
}

/// The text `t` with every placeholder replaced, scanning left to right: where a
/// placeholder starts, its value is emitted and the scan resumes after it.
pub open spec fn render(t: Seq<char>, name: Seq<char>, version: Seq<char>) -> Seq<char>
    decreases t.len(),
{
    if t.len() == 0 {
        Seq::empty()
    } else if occurs_at(t, name_placeholder(), 0) {
        name + render(t.subrange(name_placeholder().len() as int, t.len() as int), name, version)
    } else if occurs_at(t, version_placeholder(), 0) {
        version + render(t.subrange(version_placeholder().len() as int, t.len() as int), name, version)
    } else {
        seq![t[0]] + render(t.subrange(1, t.len() as int), name, version)
    }
}

/// Whether the characters of `p` stand in `t` from position `i` on.
fn occurs_in_at(t: &str, n: usize, i: usize, p: &str, m: usize) -> (r: bool)
    requires
        n == t@.len(),
        m == p@.len(),
        i <= n,
    ensures
        r == occurs_at(t@.subrange(i as int, n as int), p@, 0),
{
    if m > n - i {
        return false;
    }
    let mut k: usize = 0;
    while k < m
        invariant
            k <= m,
            m == p@.len(),
            n == t@.len(),
            i + m <= n,
            forall|j: int| 0 <= j < k ==> t@[i + j] == p@[j],
        decreases m - k,
    {
        if t.get_char(i + k) != p.get_char(k) {
            assert(t@.subrange(i as int, n as int).subrange(0, m as int)[k as int] != p@[k as int]);
            return false;
        }
        k = k + 1;
    }
    assert(t@.subrange(i as int, n as int).subrange(0, m as int) =~= p@);
    true
}

/// Replaces each placeholder of `template` with the project's name or version.
pub fn render_template(template: &str, name: &str, version: &str) -> (r: String)
    ensures
        r@ == render(template@, name@, version@),
{
    proof {
        reveal_strlit("{{PROJECT_NAME}}");
        reveal_strlit("{{PROJECT_VERSION}}");
    }
    assert(NAME_PLACEHOLDER@ == name_placeholder());
    assert(VERSION_PLACEHOLDER@ == version_placeholder());
    let n = template.unicode_len();
    let mut out = String::new();
    let mut i: usize = 0;
    assert(template@.subrange(0, n as int) =~= template@);
    assert(out@ + render(template@, name@, version@) =~= render(template@, name@, version@));
    while i < n
        invariant
            i <= n,
            n == template@.len(),
            NAME_PLACEHOLDER@ == name_placeholder(),
            VERSION_PLACEHOLDER@ == version_placeholder(),
            out@ + render(template@.subrange(i as int, n as int), name@, version@)
                == render(template@, name@, version@),
        decreases n - i,
    {
        let ghost rest = template@.subrange(i as int, n as int);
        if occurs_in_at(template, n, i, NAME_PLACEHOLDER, 16) {
            assert(rest.subrange(16, rest.len() as int) =~= template@.subrange(i + 16, n as int));
            out.append(name);
            i = i + 16;
        } else if occurs_in_at(template, n, i, VERSION_PLACEHOLDER, 19) {
            assert(rest.subrange(19, rest.len() as int) =~= template@.subrange(i + 19, n as int));
            out.append(version);
            i = i + 19;
        } else {
            let c = template.substring_char(i, i + 1);
            assert(c@ =~= seq![rest[0]]);
            assert(rest.subrange(1, rest.len() as int) =~= template@.subrange(i + 1, n as int));
            out.append(c);
            i = i + 1;
        }
    }
    assert(template@.subrange(n as int, n as int) =~= Seq::<char>::empty());
    assert(out@ =~= out@ + Seq::<char>::empty());
    out
}

proof fn lemma_contains_after(a: Seq<char>, b: Seq<char>, p: Seq<char>)
    requires
        contains(b, p),
    ensures
        contains(a + b, p),
{
    let j = choose|j: int| occurs_at(b, p, j);
    assert((a + b).subrange(a.len() + j, a.len() + j + p.len()) =~= b.subrange(j, j + p.len()));
    assert(occurs_at(a + b, p, a.len() + j));
}

proof fn lemma_contains_head(a: Seq<char>, b: Seq<char>)
    ensures
        contains(a + b, a),
{
    assert((a + b).subrange(0, a.len() as int) =~= a);
    assert(occurs_at(a + b, a, 0));
}

proof fn lemma_occurs_in_tail(t: Seq<char>, p: Seq<char>, i: int, k: int)
    requires
        occurs_at(t, p, i),
        0 <= k <= i,
    ensures
        occurs_at(t.subrange(k, t.len() as int), p, i - k),
{
    assert(t.subrange(k, t.len() as int).subrange(i - k, i - k + p.len()) =~= t.subrange(
        i,
        i + p.len(),
    ));
}

/// Wherever the name placeholder stands in a template, the rendered text holds the name.
pub proof fn lemma_render_emits_name(t: Seq<char>, name: Seq<char>, version: Seq<char>, i: int)
    requires
        occurs_at(t, name_placeholder(), i),
    ensures
        contains(render(t, name, version), name),
    decreases t.len(),
{
    let np = name_placeholder();
    let vp = version_placeholder();
    if occurs_at(t, np, 0) {
        lemma_contains_head(name, render(t.subrange(16, t.len() as int), name, version));
    } else if occurs_at(t, vp, 0) {
        if i < 19 {
            assert(t.subrange(i, i + 16)[0] == np[0]);
            assert(t.subrange(i, i + 16)[1] == np[1]);
            assert(t.subrange(0, 19)[i] == vp[i]);
            assert(t.subrange(0, 19)[i + 1] == vp[i + 1]);
            assert(false);
        }
        lemma_occurs_in_tail(t, np, i, 19);
        lemma_render_emits_name(t.subrange(19, t.len() as int), name, version, i - 19);
        lemma_contains_after(version, render(t.subrange(19, t.len() as int), name, version), name);
    } else {
        if i == 0 {
            assert(false);
        }
        lemma_occurs_in_tail(t, np, i, 1);
        lemma_render_emits_name(t.subrange(1, t.len() as int), name, version, i - 1);
        lemma_contains_after(seq![t[0]], render(t.subrange(1, t.len() as int), name, version), name);
    }
}

/// Wherever the version placeholder stands in a template, the rendered text holds the version.
pub proof fn lemma_render_emits_version(t: Seq<char>, name: Seq<char>, version: Seq<char>, i: int)
    requires
        occurs_at(t, version_placeholder(), i),
    ensures
        contains(render(t, name, version), version),
    decreases t.len(),
{
    let np = name_placeholder();
    let vp = version_placeholder();
    if occurs_at(t, np, 0) {
        if i < 16 {
            assert(t.subrange(i, i + 19)[0] == vp[0]);
            assert(t.subrange(i, i + 19)[1] == vp[1]);
            assert(t.subrange(0, 16)[i] == np[i]);
            assert(t.subrange(0, 16)[i + 1] == np[i + 1]);
            assert(false);
        }
        lemma_occurs_in_tail(t, vp, i, 16);
        lemma_render_emits_version(t.subrange(16, t.len() as int), name, version, i - 16);
        lemma_contains_after(name, render(t.subrange(16, t.len() as int), name, version), version);
    } else if occurs_at(t, vp, 0) {
        lemma_contains_head(version, render(t.subrange(19, t.len() as int), name, version));
    } else {
        if i == 0 {
            assert(false);
        }
        lemma_occurs_in_tail(t, vp, i, 1);
        lemma_render_emits_version(t.subrange(1, t.len() as int), name, version, i - 1);
        lemma_contains_after(seq![t[0]], render(t.subrange(1, t.len() as int), name, version), version);
    }
}

/// Where the build configuration's placeholders stand.
pub proof fn lemma_cmakelists_placeholders()
    ensures
        occurs_at(CMAKELISTS_TEMPLATE@, name_placeholder(), 45),
        occurs_at(CMAKELISTS_TEMPLATE@, version_placeholder(), 101),
{
    reveal_strlit("cmake_minimum_required(VERSION 3.20)\nproject({{PROJECT_NAME}} LANGUAGES CXX)\n\nset(CMAKE_CXX_STANDARD {{PROJECT_VERSION}})\nset(CMAKE_CXX_STANDARD_REQUIRED ON)\nset(CMAKE_CXX_EXTENSIONS OFF)\nset(CMAKE_EXPORT_COMPILE_COMMANDS ON)\n\nadd_executable(${PROJECT_NAME} src/main.cpp)\n");
    assert(CMAKELISTS_TEMPLATE@.subrange(45, 61) =~= name_placeholder());
    assert(CMAKELISTS_TEMPLATE@.subrange(101, 120) =~= version_placeholder());
}

/// No placeholder can start in `s` before position `k`.
pub open spec fn no_opening_before(s: Seq<char>, k: int) -> bool {
    forall|j: int| 0 <= j < k && j + 1 < s.len() ==> !(#[trigger] s[j] == '{' && s[j + 1] == '{')
}

proof fn lemma_render_literal(s: Seq<char>, name: Seq<char>, version: Seq<char>, k: int)
    requires
        0 <= k <= s.len(),
        no_opening_before(s, k),
    ensures
        render(s, name, version) == s.subrange(0, k) + render(s.subrange(k, s.len() as int), name, version),
    decreases k,
{
    if k == 0 {
        assert(s.subrange(0, s.len() as int) =~= s);
        assert(s.subrange(0, 0) + render(s, name, version) =~= render(s, name, version));
    } else {
        let t = s.subrange(1, s.len() as int);
        if occurs_at(s, name_placeholder(), 0) {
            assert(s.subrange(0, 16)[0] == s[0] && s.subrange(0, 16)[1] == s[1]);
        }
        if occurs_at(s, version_placeholder(), 0) {
            assert(s.subrange(0, 19)[0] == s[0] && s.subrange(0, 19)[1] == s[1]);
        }
        assert forall|j: int| 0 <= j < k - 1 && j + 1 < t.len() implies !(#[trigger] t[j] == '{'
            && t[j + 1] == '{') by {
            assert(t[j] == s[j + 1] && t[j + 1] == s[j + 2]);
        }
        lemma_render_literal(t, name, version, k - 1);
        assert(t.subrange(k - 1, t.len() as int) =~= s.subrange(k, s.len() as int));
        assert(seq![s[0]] + t.subrange(0, k - 1) =~= s.subrange(0, k));
    }
}

/// The build configuration for `name` and `version`, spelled out: the
/// template's text with the two values in place of its placeholders.
pub open spec fn cmakelists_for(name: Seq<char>, version: Seq<char>) -> Seq<char> {
    CMAKELISTS_TEMPLATE@.subrange(0, 45) + name + CMAKELISTS_TEMPLATE@.subrange(61, 101) + version
        + CMAKELISTS_TEMPLATE@.subrange(120, 272)
}

/// Rendering the build configuration replaces its two placeholders and keeps
/// the rest of its text, in which no placeholder can start.
pub proof fn lemma_cmakelists_rendered(name: Seq<char>, version: Seq<char>)
    ensures
        render(CMAKELISTS_TEMPLATE@, name, version) == cmakelists_for(name, version),
        no_opening_before(CMAKELISTS_TEMPLATE@.subrange(0, 45), 45),
        no_opening_before(CMAKELISTS_TEMPLATE@.subrange(61, 101), 40),
        no_opening_before(CMAKELISTS_TEMPLATE@.subrange(120, 272), 152),
{
    reveal_strlit("cmake_minimum_required(VERSION 3.20)\nproject({{PROJECT_NAME}} LANGUAGES CXX)\n\nset(CMAKE_CXX_STANDARD {{PROJECT_VERSION}})\nset(CMAKE_CXX_STANDARD_REQUIRED ON)\nset(CMAKE_CXX_EXTENSIONS OFF)\nset(CMAKE_EXPORT_COMPILE_COMMANDS ON)\n\nadd_executable(${PROJECT_NAME} src/main.cpp)\n");
    let t = CMAKELISTS_TEMPLATE@;
    assert(t.len() == 272);
    lemma_cmakelists_placeholders();
    lemma_render_literal(t, name, version, 45);
    let t1 = t.subrange(45, 272);
    assert(occurs_at(t1, name_placeholder(), 0)) by {
        assert(t1.subrange(0, 16) =~= t.subrange(45, 61));
    }
    let t2 = t.subrange(61, 272);
    assert(t1.subrange(16, 227) =~= t2);
    assert(no_opening_before(t2, 40));
    lemma_render_literal(t2, name, version, 40);
    let t3 = t.subrange(101, 272);
    assert(t2.subrange(40, 211) =~= t3);
    assert(t2.subrange(0, 40) =~= t.subrange(61, 101));
    assert(occurs_at(t3, version_placeholder(), 0)) by {
        assert(t3.subrange(0, 19) =~= t.subrange(101, 120));
    }
    assert(!occurs_at(t3, name_placeholder(), 0)) by {
        assert(t3.subrange(0, 16)[10] == t[111]);
    }
    let t4 = t.subrange(120, 272);
    assert(t3.subrange(19, 171) =~= t4);
    assert(no_opening_before(t4, 152));
    lemma_render_literal(t4, name, version, 152);
    assert(t4.subrange(0, 152) =~= t4);
    assert(t4.subrange(152, 152) =~= Seq::<char>::empty());
    assert(render(t, name, version) =~= cmakelists_for(name, version));
}

} // verus!
