//! Shader interface layouts and the editable grid vertex shader source.
//!
//! The grid vertex shader embeds the coordinate-system equations: its template holds the
//! placeholders `{{x}}`, `{{y}}` and `{{z}}`, replaced by the three equations whenever the
//! coordinate system changes. The GPU program itself is compiled by the renderer from
//! [`GridShader::vertex_src`].

use vstd::prelude::*;
use vstd::string::StrSliceExecFns;
use vstd::string::StringExecFns;

verus! {

/// `s` with every non-overlapping occurrence of `pat`, scanned left to right, replaced by
/// `with`, as `str::replace` does for a non-empty pattern.
pub open spec fn replace_all(s: Seq<char>, pat: Seq<char>, with: Seq<char>) -> Seq<char>
    decreases s.len(),
{
    if pat.len() == 0 || s.len() < pat.len() {
        s
    } else if s.subrange(0, pat.len() as int) == pat {
        with + replace_all(s.skip(pat.len() as int), pat, with)
    } else {
        seq![s[0]] + replace_all(s.skip(1), pat, with)
    }
}

/// Whether `pat` occurs somewhere in `s`.
pub open spec fn occurs_in(s: Seq<char>, pat: Seq<char>) -> bool {
    exists|i: int| 0 <= i && i + pat.len() <= s.len() && #[trigger] s.subrange(i, i + pat.len())
        == pat
}

/// Replacing a pattern that does not occur leaves the text unchanged.
pub proof fn lemma_replace_absent_is_identity(s: Seq<char>, pat: Seq<char>, with: Seq<char>)
    requires
        !occurs_in(s, pat),
    ensures
        replace_all(s, pat, with) == s,
    decreases s.len(),
{
    if pat.len() == 0 || s.len() < pat.len() {
    } else {
        if s.subrange(0, pat.len() as int) == pat {
            assert(s.subrange(0, 0 + pat.len() as int) == pat);
        }
        let rest = s.skip(1);
        assert(!occurs_in(rest, pat)) by {
            if occurs_in(rest, pat) {
                let i = choose|i: int|
                    0 <= i && i + pat.len() <= rest.len() && #[trigger] rest.subrange(
                        i,
                        i + pat.len(),
                    ) == pat;
                assert(s.subrange(i + 1, i + 1 + pat.len()) =~= rest.subrange(i, i + pat.len()));
            }
        }
        lemma_replace_absent_is_identity(rest, pat, with);
        assert(seq![s[0]] + rest =~= s);
    }
}

/// A template without placeholders is used as the vertex source as it is, whatever the
/// equations; and the source never depends on earlier edits, only on the template and the
/// latest equations.
pub proof fn lemma_grid_source_without_placeholders(template: Seq<char>, eqs: Seq<Seq<char>>)
    requires
        !occurs_in(template, "{{x}}"@),
        !occurs_in(template, "{{y}}"@),
        !occurs_in(template, "{{z}}"@),
    ensures
        grid_vertex_source(template, eqs) == template,
{
    lemma_replace_absent_is_identity(template, "{{x}}"@, eqs[0]);
    lemma_replace_absent_is_identity(template, "{{y}}"@, eqs[1]);
    lemma_replace_absent_is_identity(template, "{{z}}"@, eqs[2]);
}

/// Whether `pat` occurs in `s` at index `i`.
fn matches_at(s: &str, n: usize, i: usize, pat: &str, m: usize) -> (b: bool)
    requires
        n == s@.len(),
        m == pat@.len(),
        i + m <= n,
    ensures
        b == (s@.subrange(i as int, i + m) == pat@),
{
    let mut k: usize = 0;
    while k < m
        invariant
            n == s@.len(),
            m == pat@.len(),
            i + m <= n,
            k <= m,
            forall|j: int| 0 <= j < k ==> s@[i + j] == pat@[j],
        decreases m - k,
    {
        if s.get_char(i + k) != pat.get_char(k) {
            assert(s@.subrange(i as int, i + m)[k as int] != pat@[k as int]);
            return false;
        }
        k = k + 1;
    }
    assert(s@.subrange(i as int, i + m) =~= pat@);
    true
}

/// Replaces every non-overlapping occurrence of the non-empty `pat` in `s` by `with`.
pub fn replace_str(s: &str, pat: &str, with: &str) -> (r: String)
    requires
        pat@.len() > 0,
    ensures
        r@ == replace_all(s@, pat@, with@),
{
    let n = s.unicode_len();
    let m = pat.unicode_len();
    let mut res = String::new();
    let mut run_start: usize = 0;
    let mut i: usize = 0;
    assert(s@.skip(0) =~= s@);
    while m <= n - i
        invariant
            n == s@.len(),
            m == pat@.len(),
            m > 0,
            run_start <= i <= n,
            replace_all(s@, pat@, with@) == res@ + s@.subrange(run_start as int, i as int)
                + replace_all(s@.skip(i as int), pat@, with@),
        decreases n - i,
    {
        let ghost rest = s@.skip(i as int);
        assert(rest.subrange(0, m as int) =~= s@.subrange(i as int, i + m));
        if matches_at(s, n, i, pat, m) {
            assert(rest.skip(m as int) =~= s@.skip(i + m));
            let run = s.substring_char(run_start, i);
            res.append(run);
            res.append(with);
            assert(res@ + s@.subrange((i + m) as int, (i + m) as int) =~= res@);
            run_start = i + m;
            i = i + m;
        } else {
            assert(rest.skip(1) =~= s@.skip(i + 1));
            assert(s@.subrange(run_start as int, i as int) + seq![rest[0]] =~= s@.subrange(
                run_start as int,
                i + 1,
            ));
            i = i + 1;
        }
    }
    assert(s@.skip(i as int).len() < m);
    assert(replace_all(s@.skip(i as int), pat@, with@) == s@.skip(i as int));
    assert(s@.subrange(run_start as int, i as int) + s@.skip(i as int) =~= s@.subrange(
        run_start as int,
        n as int,
    ));
    let tail = s.substring_char(run_start, n);
    res.append(tail);
    res
}

/// Interface of the plain coloured-model shader: its vertex attribute and uniform names.
#[derive(Clone, Copy, Debug)]
pub struct ClassicShader {
    pub position_attribute: &'static str,
    pub projection_matrix: &'static str,
    pub transformation_matrix: &'static str,
    pub view_matrix: &'static str,
    pub color: &'static str,
}

impl ClassicShader {
    /// The interface of the coloured-model shader.
    pub fn new() -> (r: ClassicShader)
        ensures
            r.position_attribute@ == "position"@,
            r.projection_matrix@ == "projection_matrix"@,
            r.transformation_matrix@ == "transformation_matrix"@,
            r.view_matrix@ == "view_matrix"@,
            r.color@ == "color"@,
    {
        ClassicShader {
            position_attribute: "position",
            projection_matrix: "projection_matrix",
            transformation_matrix: "transformation_matrix",
            view_matrix: "view_matrix",
            color: "color",
        }
    }
}

/// Grid shader: its interface names, its vertex source template and the current source.
pub struct GridShader {
    pub position_attribute: &'static str,
    pub projection_matrix: &'static str,
    pub transformation_matrix: &'static str,
    pub view_matrix: &'static str,
    pub color: &'static str,
    pub tangent_mix: &'static str,
    pub tangent_anchor_abstract: &'static str,
    pub tangent_basis_x: &'static str,
    pub tangent_basis_y: &'static str,
    pub tangent_basis_z: &'static str,
    pub vertex_editable_src: String,
    pub vertex_src: String,
}

/// The grid vertex source for the given template and coordinate equations.
pub open spec fn grid_vertex_source(template: Seq<char>, eqs: Seq<Seq<char>>) -> Seq<char> {
    replace_all(
        replace_all(replace_all(template, "{{x}}"@, eqs[0]), "{{y}}"@, eqs[1]),
        "{{z}}"@,
        eqs[2],
    )
}

impl GridShader {
    /// The template the vertex source is built from.
    pub open spec fn template(&self) -> Seq<char> {
        self.vertex_editable_src@
    }

    /// The vertex source the GPU program is built from.
    pub open spec fn source(&self) -> Seq<char> {
        self.vertex_src@
    }

    /// A grid shader for the given vertex template; until equations are set, the vertex
    /// source is the template itself.
    pub fn new(vertex_editable_src: String) -> (r: GridShader)
        ensures
            r.template() == vertex_editable_src@,
            r.source() == vertex_editable_src@,
            r.position_attribute@ == "position"@,
            r.projection_matrix@ == "projection_matrix"@,
            r.transformation_matrix@ == "transformation_matrix"@,
            r.view_matrix@ == "view_matrix"@,
            r.color@ == "segment_color"@,
            r.tangent_mix@ == "tangent_mix"@,
            r.tangent_anchor_abstract@ == "tangent_anchor_abstract"@,
            r.tangent_basis_x@ == "tangent_basis_x"@,
            r.tangent_basis_y@ == "tangent_basis_y"@,
            r.tangent_basis_z@ == "tangent_basis_z"@,
    {
        let vertex_src = vertex_editable_src.clone();
        GridShader {
            position_attribute: "position",
            projection_matrix: "projection_matrix",
            transformation_matrix: "transformation_matrix",
            view_matrix: "view_matrix",
            color: "segment_color",
            tangent_mix: "tangent_mix",
            tangent_anchor_abstract: "tangent_anchor_abstract",
            tangent_basis_x: "tangent_basis_x",
            tangent_basis_y: "tangent_basis_y",
            tangent_basis_z: "tangent_basis_z",
            vertex_editable_src,
            vertex_src,
        }
    }

    /// Rebuilds the vertex source from the template with the three coordinate equations
    /// substituted for `{{x}}`, `{{y}}` and `{{z}}`, in that order.
    pub fn edit_eqs(&mut self, new_eqs: &[String; 3])
        ensures
            final(self).template() == old(self).template(),
            final(self).source() == grid_vertex_source(
                old(self).template(),
                seq![new_eqs[0]@, new_eqs[1]@, new_eqs[2]@],
            ),
            final(self).position_attribute == old(self).position_attribute,
            final(self).projection_matrix == old(self).projection_matrix,
            final(self).transformation_matrix == old(self).transformation_matrix,
            final(self).view_matrix == old(self).view_matrix,
            final(self).color == old(self).color,
            final(self).tangent_mix == old(self).tangent_mix,
            final(self).tangent_anchor_abstract == old(self).tangent_anchor_abstract,
            final(self).tangent_basis_x == old(self).tangent_basis_x,
            final(self).tangent_basis_y == old(self).tangent_basis_y,
            final(self).tangent_basis_z == old(self).tangent_basis_z,
    {
        proof {
            reveal_strlit("{{x}}");
            reveal_strlit("{{y}}");
            reveal_strlit("{{z}}");
        }
        let with_x = replace_str(self.vertex_editable_src.as_str(), "{{x}}", new_eqs[0].as_str());
        let with_y = replace_str(with_x.as_str(), "{{y}}", new_eqs[1].as_str());
        let with_z = replace_str(with_y.as_str(), "{{z}}", new_eqs[2].as_str());
        self.vertex_src = with_z;
    }

    /// The vertex source the GPU program is built from.
    pub fn vertex_src(&self) -> (r: &str)
        ensures
            r@ == self.source(),
    {
        self.vertex_src.as_str()
    }
}

} // verus!
