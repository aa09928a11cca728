//! Command templates: the variables that a step's command may use, and their
//! expansion.

use vstd::prelude::*;
use vstd::string::*;

use crate::config::ProjectConfig;
use crate::text::{decimal, decimal_nat, format_i64, join3, opt_text, replace, replace_all};

verus! {

/// The number of variables.
pub open spec fn variable_count() -> int {
    12
}

/// The `k`-th variable, in the order of expansion. A variable whose name starts
/// with that of another comes before it.
pub open spec fn variable(k: int) -> Seq<char> {
    if k == 0 {
        "$REPOSITORY"@
    } else if k == 1 {
        "$BRANCH"@
    } else if k == 2 {
        "$SHA"@
    } else if k == 3 {
        "$SHORT_SHA"@
    } else if k == 4 {
        "$JOB_ACTION"@
    } else if k == 5 {
        "$SOURCE_DEPLOYMENT_ID"@
    } else if k == 6 {
        "$PROJECT_ID"@
    } else if k == 7 {
        "$IMAGE_REFERENCE"@
    } else if k == 8 {
        "$IMAGE"@
    } else if k == 9 {
        "$STABLE_TAG"@
    } else if k == 10 {
        "$STABLE_IMAGE_REFERENCE"@
    } else {
        "$PORTAINER_WEBHOOK"@
    }
}

/// `s` with the variables from the `n`-th on replaced, one after the other, by
/// their values.
pub open spec fn expand_from(s: Seq<char>, values: Seq<Seq<char>>, n: int) -> Seq<char>
    decreases variable_count() - n,
{
    if n >= variable_count() {
        s
    } else {
        expand_from(replace_all(s, variable(n), values[n]), values, n + 1)
    }
}

/// The tag of a project's stable image: the configured one, or the branch with
/// hyphens for slashes.
pub open spec fn stable_tag_text(project: ProjectConfig, branch: Seq<char>) -> Seq<char> {
    match project.stable_tag {
        Some(tag) => tag@,
        None => replace_all(branch, "/"@, "-"@),
    }
}

/// The values of the variables, in their order.
pub open spec fn variable_values(
    project: ProjectConfig,
    repo: Seq<char>,
    branch: Seq<char>,
    sha: Seq<char>,
    short_sha: Seq<char>,
    action: Seq<char>,
    image_reference: Seq<char>,
    source_deployment_id: Option<i64>,
) -> Seq<Seq<char>> {
    seq![
        repo,
        branch,
        sha,
        short_sha,
        action,
        match source_deployment_id {
            Some(id) => decimal(id as int),
            None => Seq::empty(),
        },
        project.id@,
        image_reference,
        project.image@,
        stable_tag_text(project, branch),
        project.image@ + ":"@ + stable_tag_text(project, branch),
        match opt_text(project.portainer_webhook) {
            Some(url) => url,
            None => Seq::empty(),
        },
    ]
}

/// Expands the variables of a command template.
#[allow(clippy::too_many_arguments)]
pub fn expand_command(
    template: &str,
    project: &ProjectConfig,
    repo: &str,
    branch: &str,
    sha: &str,
    short_sha: &str,
    action: &str,
    image_reference: &str,
    source_deployment_id: Option<i64>,
) -> (command: String)
    ensures
        command@ == expand_from(
            template@,
            variable_values(
                *project,
                repo@,
                branch@,
                sha@,
                short_sha@,
                action@,
                image_reference@,
                source_deployment_id,
            ),
            0,
        ),
{
    proof {
        reveal_variables();
        assert(variable(0).len() > 0 && variable(1).len() > 0 && variable(2).len() > 0);
        assert(variable(3).len() > 0 && variable(4).len() > 0 && variable(5).len() > 0);
        assert(variable(6).len() > 0 && variable(7).len() > 0 && variable(8).len() > 0);
        assert(variable(9).len() > 0 && variable(10).len() > 0 && variable(11).len() > 0);
        reveal_with_fuel(expand_from, 13);
        reveal_strlit("/");
    }
    let stable_tag = match &project.stable_tag {
        Some(tag) => tag.clone(),
        None => replace(branch, "/", "-"),
    };
    let stable_image_reference = join3(project.image.as_str(), ":", stable_tag.as_str());
    let source_deployment = match source_deployment_id {
        Some(id) => format_i64(id),
        None => String::new(),
    };
    let portainer_webhook = match &project.portainer_webhook {
        Some(url) => url.clone(),
        None => String::new(),
    };
    let command = replace(template, "$REPOSITORY", repo);
    let command = replace(command.as_str(), "$BRANCH", branch);
    let command = replace(command.as_str(), "$SHA", sha);
    let command = replace(command.as_str(), "$SHORT_SHA", short_sha);
    let command = replace(command.as_str(), "$JOB_ACTION", action);
    let command = replace(command.as_str(), "$SOURCE_DEPLOYMENT_ID", source_deployment.as_str());
    let command = replace(command.as_str(), "$PROJECT_ID", project.id.as_str());
    let command = replace(command.as_str(), "$IMAGE_REFERENCE", image_reference);
    let command = replace(command.as_str(), "$IMAGE", project.image.as_str());
    let command = replace(command.as_str(), "$STABLE_TAG", stable_tag.as_str());
    let command = replace(
        command.as_str(),
        "$STABLE_IMAGE_REFERENCE",
        stable_image_reference.as_str(),
    );
    replace(command.as_str(), "$PORTAINER_WEBHOOK", portainer_webhook.as_str())
}

/// The first characters of the variables, and that only the first is a dollar
/// sign.
proof fn reveal_variables()
    ensures
        forall|k: int| #![trigger variable(k)]
            0 <= k < variable_count() ==> {
                &&& variable(k).len() >= 4
                &&& variable(k)[0] == '$'
                &&& no_dollar(variable(k).skip(1))
            },
{
    reveal_strlit("$REPOSITORY");
    reveal_strlit("$BRANCH");
    reveal_strlit("$SHA");
    reveal_strlit("$SHORT_SHA");
    reveal_strlit("$JOB_ACTION");
    reveal_strlit("$SOURCE_DEPLOYMENT_ID");
    reveal_strlit("$PROJECT_ID");
    reveal_strlit("$IMAGE_REFERENCE");
    reveal_strlit("$IMAGE");
    reveal_strlit("$STABLE_TAG");
    reveal_strlit("$STABLE_IMAGE_REFERENCE");
    reveal_strlit("$PORTAINER_WEBHOOK");
}

/// Whether a text holds no dollar sign.
pub open spec fn no_dollar(s: Seq<char>) -> bool {
    forall|i: int| 0 <= i < s.len() ==> #[trigger] s[i] != '$'
}

/// A part of a template: a text that stands as it is, or a variable.
pub enum Piece {
    Text(Seq<char>),
    Variable(int),
}

/// A piece once the first `n` variables have been replaced.
pub open spec fn piece_text(piece: Piece, values: Seq<Seq<char>>, n: int) -> Seq<char> {
    match piece {
        Piece::Text(text) => text,
        Piece::Variable(k) => if k < n {
            values[k]
        } else {
            variable(k)
        },
    }
}

/// The pieces, joined, once the first `n` variables have been replaced. With `n`
/// zero this is the template itself; with all variables, what it means.
pub open spec fn render(pieces: Seq<Piece>, values: Seq<Seq<char>>, n: int) -> Seq<char>
    decreases pieces.len(),
{
    if pieces.len() == 0 {
        Seq::empty()
    } else {
        piece_text(pieces[0], values, n) + render(pieces.skip(1), values, n)
    }
}

/// Whether `pattern` occurs in `a + b` from no position within `a`.
pub open spec fn starts_nowhere(a: Seq<char>, b: Seq<char>, pattern: Seq<char>) -> bool {
    forall|i: int| 0 <= i < a.len() ==> !pattern.is_prefix_of(#[trigger] (a + b).skip(i))
}

/// Whether the `n`-th variable, when its turn comes, occurs only where a piece is
/// that variable.
pub open spec fn unambiguous(pieces: Seq<Piece>, values: Seq<Seq<char>>, n: int) -> bool
    decreases pieces.len(),
{
    pieces.len() == 0 || {
        &&& unambiguous(pieces.skip(1), values, n)
        &&& pieces[0] == Piece::Variable(n) || starts_nowhere(
            piece_text(pieces[0], values, n),
            render(pieces.skip(1), values, n),
            variable(n),
        )
    }
}

/// Law: a text from no position of which the pattern stands is kept, and what follows it is
/// treated as if it stood alone.
pub proof fn replacement_keeps_other_text(a: Seq<char>, b: Seq<char>, from: Seq<char>, to: Seq<char>)
    requires
        from.len() > 0,
        starts_nowhere(a, b, from),
    ensures
        replace_all(a + b, from, to) == a + replace_all(b, from, to),
    decreases a.len(),
{
    if a.len() == 0 {
        assert(a + b =~= b);
        assert(a + replace_all(b, from, to) =~= replace_all(b, from, to));
    } else {
        let s = a + b;
        assert(s.skip(0) =~= s);
        assert(!from.is_prefix_of(s.skip(0)));
        assert(s.skip(1) =~= a.skip(1) + b);
        assert forall|i: int| 0 <= i < a.skip(1).len() implies !from.is_prefix_of(
            #[trigger] (a.skip(1) + b).skip(i),
        ) by {
            assert((a.skip(1) + b).skip(i) =~= s.skip(i + 1));
        }
        replacement_keeps_other_text(a.skip(1), b, from, to);
        assert(seq![s[0]] + (a.skip(1) + replace_all(b, from, to)) =~= a + replace_all(
            b,
            from,
            to,
        ));
    }
}

/// Law: the pattern is replaced where it stands, and what follows it is treated as if it
/// stood alone.
pub proof fn replacement_takes_the_pattern(b: Seq<char>, from: Seq<char>, to: Seq<char>)
    requires
        from.len() > 0,
    ensures
        replace_all(from + b, from, to) == to + replace_all(b, from, to),
{
    let s = from + b;
    assert(s.subrange(0, from.len() as int) =~= from);
    assert(s.skip(from.len() as int) =~= b);
}

proof fn lemma_replace_one(pieces: Seq<Piece>, values: Seq<Seq<char>>, n: int)
    requires
        0 <= n < variable_count(),
        unambiguous(pieces, values, n),
    ensures
        replace_all(render(pieces, values, n), variable(n), values[n]) == render(
            pieces,
            values,
            n + 1,
        ),
    decreases pieces.len(),
{
    reveal_variables();
    let name = variable(n);
    if pieces.len() > 0 {
        let rest = render(pieces.skip(1), values, n);
        lemma_replace_one(pieces.skip(1), values, n);
        if pieces[0] == Piece::Variable(n) {
            replacement_takes_the_pattern(rest, name, values[n]);
        } else {
            replacement_keeps_other_text(piece_text(pieces[0], values, n), rest, name, values[n]);
        }
    }
}

proof fn lemma_expand_from(pieces: Seq<Piece>, values: Seq<Seq<char>>, n: int)
    requires
        0 <= n <= variable_count(),
        forall|m: int| n <= m < variable_count() ==> #[trigger] unambiguous(pieces, values, m),
    ensures
        expand_from(render(pieces, values, n), values, n) == render(
            pieces,
            values,
            variable_count(),
        ),
    decreases variable_count() - n,
{
    if n < variable_count() {
        assert(unambiguous(pieces, values, n));
        lemma_replace_one(pieces, values, n);
        lemma_expand_from(pieces, values, n + 1);
    }
}

/// Law: a template in which every variable, when its turn comes, occurs only
/// where it was written, expands to its pieces with each variable replaced by its
/// value.
pub proof fn expansion_replaces_each_variable(pieces: Seq<Piece>, values: Seq<Seq<char>>)
    requires
        forall|n: int| 0 <= n < variable_count() ==> #[trigger] unambiguous(pieces, values, n),
    ensures
        expand_from(render(pieces, values, 0), values, 0) == render(
            pieces,
            values,
            variable_count(),
        ),
{
    lemma_expand_from(pieces, values, 0);
}

/// Whether texts and values hold no dollar sign, and what follows `$IMAGE`, once
/// the variables before it are replaced, does not make it `$IMAGE_REFERENCE`.
pub open spec fn plain(pieces: Seq<Piece>, values: Seq<Seq<char>>) -> bool
    decreases pieces.len(),
{
    pieces.len() == 0 || {
        &&& plain(pieces.skip(1), values)
        &&& match pieces[0] {
            Piece::Text(text) => no_dollar(text),
            Piece::Variable(k) => {
                &&& 0 <= k < variable_count()
                &&& no_dollar(values[k])
                &&& k == 8 ==> !"_REFERENCE"@.is_prefix_of(render(pieces.skip(1), values, 7))
            },
        }
    }
}

proof fn lemma_variables_disagree(n: int, k: int)
    requires
        0 <= n < k < variable_count(),
        !(n == 7 && k == 8),
    ensures
        exists|i: int|
            0 <= i < variable(n).len() && i < variable(k).len() && #[trigger] variable(n)[i]
                != variable(k)[i],
{
    reveal_strlit("$REPOSITORY");
    reveal_strlit("$BRANCH");
    reveal_strlit("$SHA");
    reveal_strlit("$SHORT_SHA");
    reveal_strlit("$JOB_ACTION");
    reveal_strlit("$SOURCE_DEPLOYMENT_ID");
    reveal_strlit("$PROJECT_ID");
    reveal_strlit("$IMAGE_REFERENCE");
    reveal_strlit("$IMAGE");
    reveal_strlit("$STABLE_TAG");
    reveal_strlit("$STABLE_IMAGE_REFERENCE");
    reveal_strlit("$PORTAINER_WEBHOOK");
    let a = variable(n);
    let b = variable(k);
    assert(a[1] != b[1] || a[2] != b[2] || a[3] != b[3] || (a.len() > 8 && b.len() > 8 && a[8]
        != b[8]));
}

proof fn lemma_plain_is_unambiguous(pieces: Seq<Piece>, values: Seq<Seq<char>>, n: int)
    requires
        0 <= n < variable_count(),
        plain(pieces, values),
    ensures
        unambiguous(pieces, values, n),
    decreases pieces.len(),
{
    reveal_variables();
    if pieces.len() > 0 {
        lemma_plain_is_unambiguous(pieces.skip(1), values, n);
        if pieces[0] != Piece::Variable(n) {
            let head = piece_text(pieces[0], values, n);
            let rest = render(pieces.skip(1), values, n);
            let name = variable(n);
            let s = head + rest;
            assert forall|i: int| 0 <= i < head.len() implies !name.is_prefix_of(
                #[trigger] s.skip(i),
            ) by {
                if name.is_prefix_of(s.skip(i)) {
                    assert(name[0] == s.skip(i).subrange(0, name.len() as int)[0]);
                    assert(head[i] == '$');
                    match pieces[0] {
                        Piece::Text(text) => {},
                        Piece::Variable(k) => {
                            if k > n {
                                if i > 0 {
                                    assert(variable(k).skip(1)[i - 1] == head[i]);
                                }
                                assert(i == 0);
                                assert(s.skip(0) =~= s);
                                assert forall|j: int| 0 <= j < name.len() implies name[j] == s[j] by {
                                    assert(name[j] == s.subrange(0, name.len() as int)[j]);
                                }
                                if n == 7 && k == 8 {
                                    reveal_strlit("$IMAGE_REFERENCE");
                                    reveal_strlit("$IMAGE");
                                    reveal_strlit("_REFERENCE");
                                    assert forall|j: int| 0 <= j < 10 implies "_REFERENCE"@[j]
                                        == rest[j] by {
                                        assert(name[j + 6] == s[j + 6]);
                                    }
                                    assert("_REFERENCE"@ =~= rest.subrange(0, 10));
                                } else {
                                    lemma_variables_disagree(n, k);
                                    let j = choose|j: int|
                                        0 <= j < variable(n).len() && j < variable(k).len()
                                            && #[trigger] variable(n)[j] != variable(k)[j];
                                    assert(s[j] == variable(k)[j]);
                                }
                            }
                        },
                    }
                }
            }
        }
    }
}

/// Law: where neither the texts of a template nor the values of the variables
/// that it uses hold a dollar sign, each variable expands to its value, the
/// longer name being taken where one variable's name starts with another's.
pub proof fn plain_template_expands(pieces: Seq<Piece>, values: Seq<Seq<char>>)
    requires
        plain(pieces, values),
    ensures
        expand_from(render(pieces, values, 0), values, 0) == render(
            pieces,
            values,
            variable_count(),
        ),
{
    assert forall|n: int| 0 <= n < variable_count() implies #[trigger] unambiguous(
        pieces,
        values,
        n,
    ) by {
        lemma_plain_is_unambiguous(pieces, values, n);
    }
    expansion_replaces_each_variable(pieces, values);
}

/// Law: `$IMAGE_REFERENCE` stands for the image reference of the job, and not for
/// the image followed by `_REFERENCE`.
pub proof fn image_reference_expands(values: Seq<Seq<char>>)
    requires
        no_dollar(values[7]),
    ensures
        expand_from("$IMAGE_REFERENCE"@, values, 0) == values[7],
{
    let pieces = seq![Piece::Variable(7)];
    assert(pieces.skip(1) =~= Seq::<Piece>::empty());
    reveal_with_fuel(render, 2);
    reveal_with_fuel(plain, 2);
    assert(render(pieces, values, 0) =~= "$IMAGE_REFERENCE"@);
    assert(render(pieces, values, variable_count()) =~= values[7]);
    plain_template_expands(pieces, values);
}

/// Law: a template without a dollar sign is its own expansion.
pub proof fn text_without_variables_is_kept(text: Seq<char>, values: Seq<Seq<char>>)
    requires
        no_dollar(text),
    ensures
        expand_from(text, values, 0) == text,
{
    let pieces = seq![Piece::Text(text)];
    assert(pieces.skip(1) =~= Seq::<Piece>::empty());
    reveal_with_fuel(render, 2);
    reveal_with_fuel(plain, 2);
    assert(render(pieces, values, 0) =~= text);
    assert(render(pieces, values, variable_count()) =~= text);
    plain_template_expands(pieces, values);
}

/// Law: a variable that stands between texts is replaced by its value, and the texts
/// stay, where neither they nor the value hold a dollar sign and `$IMAGE` is not read
/// as `$IMAGE_REFERENCE`.
pub proof fn variable_between_texts_expands(
    before: Seq<char>,
    k: int,
    after: Seq<char>,
    values: Seq<Seq<char>>,
)
    requires
        0 <= k < variable_count(),
        no_dollar(before),
        no_dollar(after),
        no_dollar(values[k]),
        k == 8 ==> !"_REFERENCE"@.is_prefix_of(after),
    ensures
        expand_from(before + variable(k) + after, values, 0) == before + values[k] + after,
{
    let last = seq![Piece::Text(after)];
    let two = seq![Piece::Variable(k), Piece::Text(after)];
    let pieces = seq![Piece::Text(before), Piece::Variable(k), Piece::Text(after)];
    assert(last.skip(1) =~= Seq::<Piece>::empty());
    assert(two.skip(1) =~= last);
    assert(pieces.skip(1) =~= two);
    reveal_with_fuel(render, 4);
    reveal_with_fuel(plain, 4);
    assert(render(last, values, 0) =~= after);
    assert(render(last, values, 7) =~= after);
    assert(render(last, values, variable_count()) =~= after);
    assert(render(pieces, values, 0) =~= before + variable(k) + after);
    assert(render(pieces, values, variable_count()) =~= before + values[k] + after);
    assert(plain(last, values));
    assert(plain(two, values));
    plain_template_expands(pieces, values);
}

proof fn lemma_render_joins(p: Seq<Piece>, q: Seq<Piece>, values: Seq<Seq<char>>, n: int)
    ensures
        render(p + q, values, n) == render(p, values, n) + render(q, values, n),
    decreases p.len(),
{
    if p.len() == 0 {
        assert(p + q =~= q);
        assert(render(p, values, n) + render(q, values, n) =~= render(q, values, n));
    } else {
        assert((p + q).skip(1) =~= p.skip(1) + q);
        lemma_render_joins(p.skip(1), q, values, n);
        assert(render(p + q, values, n) =~= render(p, values, n) + render(q, values, n));
    }
}

proof fn lemma_parts_are_plain(p: Seq<Piece>, q: Seq<Piece>, values: Seq<Seq<char>>)
    requires
        plain(p + q, values),
    ensures
        plain(p, values),
        plain(q, values),
    decreases p.len(),
{
    if p.len() == 0 {
        assert(p + q =~= q);
    } else {
        assert((p + q).skip(1) =~= p.skip(1) + q);
        lemma_parts_are_plain(p.skip(1), q, values);
        lemma_render_joins(p.skip(1), q, values, 7);
        let head = render(p.skip(1), values, 7);
        let all = render(p.skip(1) + q, values, 7);
        let suffix = "_REFERENCE"@;
        if suffix.is_prefix_of(head) {
            assert(suffix =~= all.subrange(0, suffix.len() as int)) by {
                assert(suffix =~= head.subrange(0, suffix.len() as int));
            }
        }
    }
}

/// Law: the parts of a template whose texts and values hold no dollar sign expand each
/// for itself, one behind the other.
pub proof fn template_expands_part_by_part(
    p: Seq<Piece>,
    q: Seq<Piece>,
    values: Seq<Seq<char>>,
)
    requires
        plain(p + q, values),
    ensures
        render(p + q, values, 0) == render(p, values, 0) + render(q, values, 0),
        expand_from(render(p + q, values, 0), values, 0) == expand_from(
            render(p, values, 0),
            values,
            0,
        ) + expand_from(render(q, values, 0), values, 0),
{
    lemma_parts_are_plain(p, q, values);
    lemma_render_joins(p, q, values, 0);
    lemma_render_joins(p, q, values, variable_count());
    plain_template_expands(p + q, values);
    plain_template_expands(p, values);
    plain_template_expands(q, values);
}

/// Law: a number in decimal notation holds no dollar sign.
pub proof fn decimal_holds_no_dollar(i: int)
    ensures
        no_dollar(decimal(i)),
{
    if i < 0 {
        lemma_decimal_nat_holds_no_dollar((-i) as nat);
    } else {
        lemma_decimal_nat_holds_no_dollar(i as nat);
    }
}

proof fn lemma_decimal_nat_holds_no_dollar(n: nat)
    ensures
        no_dollar(decimal_nat(n)),
    decreases n,
{
    if n >= 10 {
        lemma_decimal_nat_holds_no_dollar(n / 10);
    }
}

/// Law: the variables are replaced one after the other, in this order, each everywhere
/// where it stands by then.
pub proof fn variables_are_replaced_in_order(template: Seq<char>, values: Seq<Seq<char>>)
    ensures
        ({
            let s0 = replace_all(template, "$REPOSITORY"@, values[0]);
            let s1 = replace_all(s0, "$BRANCH"@, values[1]);
            let s2 = replace_all(s1, "$SHA"@, values[2]);
            let s3 = replace_all(s2, "$SHORT_SHA"@, values[3]);
            let s4 = replace_all(s3, "$JOB_ACTION"@, values[4]);
            let s5 = replace_all(s4, "$SOURCE_DEPLOYMENT_ID"@, values[5]);
            let s6 = replace_all(s5, "$PROJECT_ID"@, values[6]);
            let s7 = replace_all(s6, "$IMAGE_REFERENCE"@, values[7]);
            let s8 = replace_all(s7, "$IMAGE"@, values[8]);
            let s9 = replace_all(s8, "$STABLE_TAG"@, values[9]);
            let s10 = replace_all(s9, "$STABLE_IMAGE_REFERENCE"@, values[10]);
            let s11 = replace_all(s10, "$PORTAINER_WEBHOOK"@, values[11]);
            expand_from(template, values, 0) == s11
        }),
{
    reveal_with_fuel(expand_from, 13);
}

} // verus!
