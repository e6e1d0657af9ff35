//! Report composition: the presentation-agnostic blocks a report is made of,
//! and the verified builders that lay a ticket, a summary, the history and
//! each command's message out as such blocks. Turning blocks into a chat
//! payload is the caller's business.

use vstd::prelude::*;

use crate::numfmt::{dec_str, dec_str_signed, i64_to_string, u64_to_string};
use crate::ticket::{PullRequest, Ticket};

verus! {

/// One inline element of a rich-text line.
#[derive(Clone, Debug, PartialEq, Eq)]
pub enum ReportElement {
    Text { text: String, bold: bool },
    Link { url: String, text: String, bold: bool, strike: bool, code: bool },
    User { user_id: String },
}

/// The mathematical shape of an inline element.
#[verifier::ext_equal]
pub enum ElementModel {
    Text { text: Seq<char>, bold: bool },
    Link { url: Seq<char>, text: Seq<char>, bold: bool, strike: bool, code: bool },
    User { user_id: Seq<char> },
}

impl View for ReportElement {
    type V = ElementModel;

    open spec fn view(&self) -> ElementModel {
        match self {
            ReportElement::Text { text, bold } => ElementModel::Text { text: text@, bold: *bold },
            ReportElement::Link { url, text, bold, strike, code } => ElementModel::Link {
                url: url@,
                text: text@,
                bold: *bold,
                strike: *strike,
                code: *code,
            },
            ReportElement::User { user_id } => ElementModel::User { user_id: user_id@ },
        }
    }
}

/// The views of a list of elements.
pub open spec fn element_views(s: Seq<ReportElement>) -> Seq<ElementModel> {
    s.map_values(|e: ReportElement| e@)
}

/// A plain unstyled text element.
pub open spec fn plain_text(text: Seq<char>) -> ElementModel {
    ElementModel::Text { text, bold: false }
}

/// A bold text element.
pub open spec fn bold_text(text: Seq<char>) -> ElementModel {
    ElementModel::Text { text, bold: true }
}

/// A plain unstyled link element.
pub open spec fn plain_link(url: Seq<char>, text: Seq<char>) -> ElementModel {
    ElementModel::Link { url, text, bold: false, strike: false, code: false }
}

/// The bold code link shown for one failing check run.
pub open spec fn check_link_element(c: crate::ticket::CheckRunDetails) -> ElementModel {
    ElementModel::Link { url: c.details_url@, text: c.name@, bold: true, strike: false, code: true }
}

/// The links shown for a list of check runs.
pub open spec fn check_link_elements(s: Seq<crate::ticket::CheckRunDetails>) -> Seq<ElementModel> {
    s.map_values(|c: crate::ticket::CheckRunDetails| check_link_element(c))
}

impl Ticket {
    /// The ticket's headline: a link to the ticket under its annotated name,
    /// bold, struck through when the ticket moved out of the sprint.
    pub open spec fn name_element(&self) -> ElementModel {
        ElementModel::Link {
            url: self.details.url@,
            text: self.spec_annotated_name(),
            bold: true,
            strike: self.moved_out_of_sprint,
            code: false,
        }
    }

    /// The readiness warnings shown for the ticket, in report order.
    pub open spec fn warning_texts(&self) -> Seq<Seq<char>> {
        let description: Seq<Seq<char>> = if self.spec_missing_description() {
            seq![" | Missing Description"@]
        } else {
            Seq::empty()
        };
        let labels: Seq<Seq<char>> = if self.spec_missing_labels() {
            seq![" | Missing Labels"@]
        } else {
            Seq::empty()
        };
        let assignees: Seq<Seq<char>> = if self.spec_missing_assignees() {
            seq![" | Missing Assignees"@]
        } else {
            Seq::empty()
        };
        let pr: Seq<Seq<char>> = if self.spec_missing_pr() {
            seq![" | Missing PR"@]
        } else {
            Seq::empty()
        };
        let unmerged: Seq<Seq<char>> = if self.spec_unmerged_pr() {
            seq![" | PR not merged"@]
        } else {
            Seq::empty()
        };
        description + labels + assignees + pr + unmerged
    }

    /// The warning elements: a bold warning sign, then each warning in bold;
    /// nothing when no warning applies.
    pub open spec fn warning_elements(&self) -> Seq<ElementModel> {
        if self.warning_texts().len() > 0 {
            seq![bold_text("\n\u{26A0}\u{FE0F}"@)] + self.warning_texts().map_values(
                |w: Seq<char>| bold_text(w),
            )
        } else {
            Seq::empty()
        }
    }

    /// The warning elements of the ticket.
    pub fn warning_blocks(&self) -> (r: Vec<ReportElement>)
        ensures
            element_views(r@) == self.warning_elements(),
    {
        let mut warnings: Vec<ReportElement> = Vec::new();
        let description = self.missing_description_warning();
        let labels = self.missing_labels_warning();
        let assignees = self.missing_assignees_warning();
        let pr = self.missing_pr_warning();
        let unmerged = self.unmerged_pr_warning();
        if description.is_some() || labels.is_some() || assignees.is_some() || pr.is_some()
            || unmerged.is_some() {
            warnings.push(
                ReportElement::Text { text: "\n\u{26A0}\u{FE0F}".to_owned(), bold: true },
            );
        }
        if let Some(w) = description {
            warnings.push(ReportElement::Text { text: w, bold: true });
        }
        if let Some(w) = labels {
            warnings.push(ReportElement::Text { text: w, bold: true });
        }
        if let Some(w) = assignees {
            warnings.push(ReportElement::Text { text: w, bold: true });
        }
        if let Some(w) = pr {
            warnings.push(ReportElement::Text { text: w, bold: true });
        }
        if let Some(w) = unmerged {
            warnings.push(ReportElement::Text { text: w, bold: true });
        }
        proof {
            assert(element_views(warnings@) =~~= self.warning_elements());
        }
        warnings
    }

    /// The link to the ticket's pull request: marked as a draft where it is
    /// one.
    pub open spec fn pr_link_element(&self, pr: PullRequest) -> ElementModel {
        plain_link(
            self.details.pr_url.unwrap()@,
            if pr.is_draft {
                "\u{1F6A7} View Draft PR"@
            } else {
                "View PR"@
            },
        )
    }

    pub fn pr_link_block(&self, pr: &PullRequest) -> (r: ReportElement)
        requires
            self.details.pr_url is Some,
        ensures
            r@ == self.pr_link_element(*pr),
    {
        let url = match &self.details.pr_url {
            Some(u) => u.clone(),
            None => String::new(),
        };
        let text = if pr.is_draft {
            "\u{1F6A7} View Draft PR".to_owned()
        } else {
            "View PR".to_owned()
        };
        ReportElement::Link { url, text, bold: false, strike: false, code: false }
    }

    /// The comment count shown beside a discussed pull request.
    pub open spec fn pr_comments_element(&self, pr: PullRequest) -> Option<ElementModel> {
        if pr.comments > 0 {
            Some(plain_text(" | "@ + dec_str(pr.comments as nat) + " \u{1F4AC}"@))
        } else {
            None
        }
    }

    pub fn pr_comments_block(&self, pr: &PullRequest) -> (r: Option<ReportElement>)
        ensures
            r is Some <==> self.pr_comments_element(*pr) is Some,
            r matches Some(e) ==> self.pr_comments_element(*pr) == Some(e@),
    {
        if pr.comments > 0 {
            let mut text = " | ".to_owned();
            let digits = u64_to_string(pr.comments as u64);
            text.append(digits.as_str());
            text.append(" \u{1F4AC}");
            proof {
                reveal_strlit(" | ");
                reveal_strlit(" \u{1F4AC}");
                assert(text@ =~= " | "@ + dec_str(pr.comments as nat) + " \u{1F4AC}"@);
            }
            Some(ReportElement::Text { text, bold: false })
        } else {
            None
        }
    }

    /// The merge standing of the pull request: merged, awaiting merge, or
    /// unable to merge (in bold).
    pub open spec fn pr_merge_status_element(&self, pr: PullRequest) -> ElementModel {
        if pr.merged {
            plain_text(" | PR Merged \u{2714}\u{FE0F}"@)
        } else if pr.mergeable == Some(true) {
            plain_text(" | Pending Merge"@)
        } else {
            bold_text(" | Can't Merge (see GitHub for details)"@)
        }
    }

    pub fn pr_merge_status_block(&self, pr: &PullRequest) -> (r: ReportElement)
        ensures
            r@ == self.pr_merge_status_element(*pr),
    {
        if pr.merged {
            ReportElement::Text { text: " | PR Merged \u{2714}\u{FE0F}".to_owned(), bold: false }
        } else {
            let mergeable_clean = match pr.mergeable {
                Some(true) => true,
                _ => false,
            };
            if mergeable_clean {
                ReportElement::Text { text: " | Pending Merge".to_owned(), bold: false }
            } else {
                ReportElement::Text {
                    text: " | Can't Merge (see GitHub for details)".to_owned(),
                    bold: true,
                }
            }
        }
    }

    /// The failing check runs of the pull request: a caption, then one bold
    /// code link per failing run; nothing when none fail.
    pub open spec fn pr_failing_checks_elements(&self, pr: PullRequest) -> Seq<ElementModel> {
        if pr.failing_check_runs@.len() > 0 {
            seq![plain_text(" | Failing check runs: "@)] + check_link_elements(
                pr.failing_check_runs@,
            )
        } else {
            Seq::empty()
        }
    }

    pub fn pr_failing_checks_block(&self, pr: &PullRequest) -> (r: Vec<ReportElement>)
        ensures
            element_views(r@) == self.pr_failing_checks_elements(*pr),
    {
        let mut blocks: Vec<ReportElement> = Vec::new();
        if pr.failing_check_runs.len() > 0 {
            blocks.push(
                ReportElement::Text { text: " | Failing check runs: ".to_owned(), bold: false },
            );
            proof {
                assert(element_views(blocks@) =~= seq![plain_text(" | Failing check runs: "@)]
                    + check_link_elements(pr.failing_check_runs@.subrange(0, 0)));
            }
            let mut i: usize = 0;
            while i < pr.failing_check_runs.len()
                invariant
                    i <= pr.failing_check_runs@.len(),
                    blocks@.len() == 1 + i,
                    element_views(blocks@) == seq![plain_text(" | Failing check runs: "@)]
                        + check_link_elements(pr.failing_check_runs@.subrange(0, i as int)),
                decreases pr.failing_check_runs@.len() - i,
            {
                let ghost prev_views = element_views(blocks@);
                let check_run = &pr.failing_check_runs[i];
                blocks.push(
                    ReportElement::Link {
                        url: check_run.details_url.clone(),
                        text: check_run.name.clone(),
                        bold: true,
                        strike: false,
                        code: true,
                    },
                );
                proof {
                    let s = pr.failing_check_runs@;
                    let caption = seq![plain_text(" | Failing check runs: "@)];
                    let e = check_link_element(s[i as int]);
                    assert(element_views(blocks@) =~= prev_views.push(e));
                    assert(check_link_elements(s.subrange(0, i + 1)) =~~= check_link_elements(
                        s.subrange(0, i as int),
                    ).push(e));
                    assert(caption + check_link_elements(s.subrange(0, i as int)).push(e) =~= (
                    caption + check_link_elements(s.subrange(0, i as int))).push(e));
                    assert(element_views(blocks@) == caption + check_link_elements(
                        s.subrange(0, i + 1),
                    ));
                }
                i += 1;
            }
            proof {
                assert(pr.failing_check_runs@.subrange(0, pr.failing_check_runs@.len() as int)
                    =~= pr.failing_check_runs@);
                assert(element_views(blocks@) == self.pr_failing_checks_elements(*pr));
            }
        }
        proof {
            if pr.failing_check_runs@.len() == 0 {
                assert(element_views(blocks@) =~= self.pr_failing_checks_elements(*pr));
            }
        }
        blocks
    }

    /// Everything shown for the ticket's pull request: a line break, the
    /// link, the comment count if any, the merge standing, and the failing
    /// checks; nothing where the ticket has no pull request.
    pub open spec fn pr_elements(&self) -> Seq<ElementModel> {
        match self.pr {
            Some(pr) => {
                let comments: Seq<ElementModel> = match self.pr_comments_element(pr) {
                    Some(e) => seq![e],
                    None => Seq::empty(),
                };
                seq![plain_text("\n"@), self.pr_link_element(pr)] + comments + seq![
                    self.pr_merge_status_element(pr),
                ] + self.pr_failing_checks_elements(pr)
            },
            None => Seq::empty(),
        }
    }

    pub fn pr_blocks(&self) -> (r: Vec<ReportElement>)
        requires
            self.pr is Some ==> self.details.pr_url is Some,
        ensures
            element_views(r@) == self.pr_elements(),
    {
        let mut blocks: Vec<ReportElement> = Vec::new();
        if let Some(pr) = &self.pr {
            blocks.push(ReportElement::Text { text: "\n".to_owned(), bold: false });
            let link = self.pr_link_block(pr);
            blocks.push(link);
            if let Some(comment_block) = self.pr_comments_block(pr) {
                blocks.push(comment_block);
            }
            let status = self.pr_merge_status_block(pr);
            blocks.push(status);
            let mut failing = self.pr_failing_checks_block(pr);
            let ghost before = blocks@;
            let ghost orig_failing = failing@;
            while failing.len() > 0
                invariant
                    blocks@ + failing@ =~= before + orig_failing,
                decreases failing@.len(),
            {
                let e = failing.remove(0);
                blocks.push(e);
            }
            proof {
                assert(blocks@ =~= before + orig_failing);
                assert(element_views(blocks@) =~~= self.pr_elements());
            }
        }
        proof {
            if self.pr is None {
                assert(element_views(blocks@) =~~= self.pr_elements());
            }
        }
        blocks
    }
}

/// How a count moved against its kickoff value: so many added or removed, or
/// none at all.
pub open spec fn count_difference_text(num1: int, num2: int) -> Seq<char> {
    let diff = num1 - num2;
    if diff != 0 {
        let magnitude = if diff < 0 {
            -diff
        } else {
            diff
        };
        let label = if diff < 0 {
            "removed from"@
        } else {
            "added to"@
        };
        dec_str(magnitude as nat) + " tickets "@ + label
    } else {
        "No tickets added to"@
    }
}

/// Renders how a count moved against its kickoff value.
pub fn count_difference(num1: i32, num2: i32) -> (r: String)
    ensures
        r@ == count_difference_text(num1 as int, num2 as int),
{
    let diff: i64 = (num1 as i64) - (num2 as i64);
    if diff != 0 {
        let magnitude: u64 = if diff < 0 {
            (-diff) as u64
        } else {
            diff as u64
        };
        let mut s = u64_to_string(magnitude);
        s.append(" tickets ");
        if diff < 0 {
            s.append("removed from");
        } else {
            s.append("added to");
        }
        proof {
            reveal_strlit(" tickets ");
            assert(s@ =~= count_difference_text(num1 as int, num2 as int));
        }
        s
    } else {
        "No tickets added to".to_owned()
    }
}


/// The user-mention elements for the ticket's members.
pub open spec fn member_user_elements(ms: Seq<String>) -> Seq<ElementModel> {
    ms.map_values(|m: String| ElementModel::User { user_id: m@ })
}

impl Ticket {
    /// The link to the ticket this one is part of: a line break, a caption,
    /// and the link; nothing where there is no dependency.
    pub open spec fn dependency_elements(&self) -> Seq<ElementModel> {
        match self.details.dependency_of {
            Some(d) => seq![
                plain_text("\n"@),
                plain_text("Part of "@),
                plain_link(d.url@, d.name@),
            ],
            None => Seq::empty(),
        }
    }

    pub fn dependency_blocks(&self) -> (r: Vec<ReportElement>)
        ensures
            element_views(r@) == self.dependency_elements(),
    {
        let mut blocks: Vec<ReportElement> = Vec::new();
        if let Some(dependency) = &self.details.dependency_of {
            blocks.push(ReportElement::Text { text: "\n".to_owned(), bold: false });
            blocks.push(ReportElement::Text { text: "Part of ".to_owned(), bold: false });
            blocks.push(
                ReportElement::Link {
                    url: dependency.url.clone(),
                    text: dependency.name.clone(),
                    bold: false,
                    strike: false,
                    code: false,
                },
            );
        }
        proof {
            assert(element_views(blocks@) =~= self.dependency_elements());
        }
        blocks
    }

    /// The checklist progress: so many of so many items done; nothing where
    /// the ticket has no checklist.
    pub open spec fn checklist_elements(&self) -> Seq<ElementModel> {
        if self.details.checklist_items > 0 {
            seq![
                plain_text("\n"@),
                plain_text(
                    dec_str(self.details.checked_checklist_items as nat) + "/"@ + dec_str(
                        self.details.checklist_items as nat,
                    ) + " completed"@,
                ),
            ]
        } else {
            Seq::empty()
        }
    }

    pub fn checklist_blocks(&self) -> (r: Vec<ReportElement>)
        ensures
            element_views(r@) == self.checklist_elements(),
    {
        let mut blocks: Vec<ReportElement> = Vec::new();
        if self.details.checklist_items > 0 {
            blocks.push(ReportElement::Text { text: "\n".to_owned(), bold: false });
            let mut text = u64_to_string(self.details.checked_checklist_items as u64);
            text.append("/");
            let total = u64_to_string(self.details.checklist_items as u64);
            text.append(total.as_str());
            text.append(" completed");
            proof {
                reveal_strlit("/");
                reveal_strlit(" completed");
                assert(text@ =~= dec_str(self.details.checked_checklist_items as nat) + "/"@
                    + dec_str(self.details.checklist_items as nat) + " completed"@);
            }
            blocks.push(ReportElement::Text { text, bold: false });
        }
        proof {
            assert(element_views(blocks@) =~= self.checklist_elements());
        }
        blocks
    }

    /// The ticket's members: a line break, then one mention per member;
    /// nothing where no member is assigned.
    pub open spec fn member_elements(&self) -> Seq<ElementModel> {
        if self.members@.len() > 0 {
            seq![plain_text("\n"@)] + member_user_elements(self.members@)
        } else {
            Seq::empty()
        }
    }

    pub fn member_blocks(&self) -> (r: Vec<ReportElement>)
        ensures
            element_views(r@) == self.member_elements(),
    {
        let mut blocks: Vec<ReportElement> = Vec::new();
        if self.members.len() > 0 {
            blocks.push(ReportElement::Text { text: "\n".to_owned(), bold: false });
            proof {
                assert(element_views(blocks@) =~= seq![plain_text("\n"@)]
                    + member_user_elements(self.members@.subrange(0, 0)));
            }
            let mut i: usize = 0;
            while i < self.members.len()
                invariant
                    i <= self.members@.len(),
                    blocks@.len() == 1 + i,
                    element_views(blocks@) == seq![plain_text("\n"@)] + member_user_elements(
                        self.members@.subrange(0, i as int),
                    ),
                decreases self.members@.len() - i,
            {
                let ghost prev_views = element_views(blocks@);
                blocks.push(ReportElement::User { user_id: self.members[i].clone() });
                proof {
                    let ms = self.members@;
                    let lead = seq![plain_text("\n"@)];
                    let e = ElementModel::User { user_id: ms[i as int]@ };
                    assert(element_views(blocks@) =~= prev_views.push(e));
                    assert(member_user_elements(ms.subrange(0, i + 1)) =~~= member_user_elements(
                        ms.subrange(0, i as int),
                    ).push(e));
                    assert(lead + member_user_elements(ms.subrange(0, i as int)).push(e) =~= (lead
                        + member_user_elements(ms.subrange(0, i as int))).push(e));
                    assert(element_views(blocks@) == lead + member_user_elements(
                        ms.subrange(0, i + 1),
                    ));
                }
                i += 1;
            }
            proof {
                assert(self.members@.subrange(0, self.members@.len() as int) =~= self.members@);
            }
        }
        proof {
            if self.members@.len() == 0 {
                assert(element_views(blocks@) =~= self.member_elements());
            }
        }
        blocks
    }

    /// Everything shown for one ticket, in order: the headline link, the
    /// warnings, the pull request, the dependency, the checklist, the
    /// members, and a closing gap.
    pub open spec fn elements_model(&self) -> Seq<ElementModel> {
        seq![self.name_element()] + self.warning_elements() + self.pr_elements()
            + self.dependency_elements() + self.checklist_elements() + self.member_elements()
            + seq![plain_text("\n\n\n"@)]
    }

    /// Lays the ticket out as its report elements.
    pub fn into_slack_blocks(&self) -> (r: Vec<ReportElement>)
        requires
            self.pr is Some ==> self.details.pr_url is Some,
        ensures
            element_views(r@) == self.elements_model(),
    {
        let mut out: Vec<ReportElement> = Vec::new();
        let name = self.annotated_ticket_name();
        out.push(
            ReportElement::Link {
                url: self.details.url.clone(),
                text: name,
                bold: true,
                strike: self.moved_out_of_sprint,
                code: false,
            },
        );
        let ghost v0 = element_views(out@);
        let warnings = self.warning_blocks();
        let ghost w = element_views(warnings@);
        append_elements(&mut out, warnings);
        let ghost v1 = element_views(out@);
        let prs = self.pr_blocks();
        let ghost p = element_views(prs@);
        append_elements(&mut out, prs);
        let ghost v2 = element_views(out@);
        let deps = self.dependency_blocks();
        let ghost d = element_views(deps@);
        append_elements(&mut out, deps);
        let ghost v3 = element_views(out@);
        let checks = self.checklist_blocks();
        let ghost c = element_views(checks@);
        append_elements(&mut out, checks);
        let ghost v4 = element_views(out@);
        let members = self.member_blocks();
        let ghost m = element_views(members@);
        append_elements(&mut out, members);
        let ghost v5 = element_views(out@);
        out.push(ReportElement::Text { text: "\n\n\n".to_owned(), bold: false });
        proof {
            assert(v0 =~= seq![self.name_element()]);
            assert(v1 =~= v0 + w);
            assert(v2 =~= v1 + p);
            assert(v3 =~= v2 + d);
            assert(v4 =~= v3 + c);
            assert(v5 =~= v4 + m);
            assert(element_views(out@) =~= v5.push(plain_text("\n\n\n"@)));
            assert(v5.push(plain_text("\n\n\n"@)) =~= v5 + seq![plain_text("\n\n\n"@)]);
            assert(element_views(out@) == self.elements_model());
        }
        out
    }
}

/// Moves every element of `items` to the end of `out`, in order.
fn append_elements(out: &mut Vec<ReportElement>, items: Vec<ReportElement>)
    ensures
        final(out)@ == old(out)@ + items@,
        element_views(final(out)@) == element_views(old(out)@) + element_views(items@),
{
    let ghost orig_out = out@;
    let ghost orig_items = items@;
    let mut rest = items;
    while rest.len() > 0
        invariant
            out@ + rest@ =~= orig_out + orig_items,
        decreases rest@.len(),
    {
        let e = rest.remove(0);
        out.push(e);
    }
    proof {
        assert(out@ =~= orig_out + orig_items);
        assert(element_views(out@) =~= element_views(orig_out) + element_views(orig_items));
    }
}


/// One block of a report, in presentation-agnostic form.
#[derive(Clone, Debug, PartialEq, Eq)]
pub enum ReportBlock {
    Header { text: String },
    Section { text: String },
    Context { text: String },
    Divider,
    TicketList { items: Vec<Vec<ReportElement>> },
    Button { label: String, action_id: String, value: String },
}

/// The mathematical shape of a report block.
#[verifier::ext_equal]
pub enum BlockModel {
    Header { text: Seq<char> },
    Section { text: Seq<char> },
    Context { text: Seq<char> },
    Divider,
    TicketList { items: Seq<Seq<ElementModel>> },
    Button { label: Seq<char>, action_id: Seq<char>, value: Seq<char> },
}

/// The views of a list of element lines.
pub open spec fn items_views(s: Seq<Vec<ReportElement>>) -> Seq<Seq<ElementModel>> {
    s.map_values(|v: Vec<ReportElement>| element_views(v@))
}

impl View for ReportBlock {
    type V = BlockModel;

    open spec fn view(&self) -> BlockModel {
        match self {
            ReportBlock::Header { text } => BlockModel::Header { text: text@ },
            ReportBlock::Section { text } => BlockModel::Section { text: text@ },
            ReportBlock::Context { text } => BlockModel::Context { text: text@ },
            ReportBlock::Divider => BlockModel::Divider,
            ReportBlock::TicketList { items } => BlockModel::TicketList {
                items: items_views(items@),
            },
            ReportBlock::Button { label, action_id, value } => BlockModel::Button {
                label: label@,
                action_id: action_id@,
                value: value@,
            },
        }
    }
}

/// The views of a list of blocks.
pub open spec fn block_views(s: Seq<ReportBlock>) -> Seq<BlockModel> {
    s.map_values(|b: ReportBlock| b@)
}

/// The element lines shown for the tickets of one bucket, in bucket order.
pub open spec fn ticket_list_model(bucket: Seq<Ticket>) -> Seq<Seq<ElementModel>> {
    bucket.map_values(|t: Ticket| t.elements_model())
}

/// Whether every ticket of a bucket can be laid out: a ticket with a pull
/// request must know the request's address.
pub open spec fn bucket_renderable(bucket: Seq<Ticket>) -> bool {
    forall|i: int|
        0 <= i < bucket.len() ==> ((#[trigger] bucket[i]).pr is Some ==> bucket[i].details.pr_url
            is Some)
}

/// The blocks shown for one bucket: a divider, its caption, and its ticket
/// lines; nothing where the bucket is empty.
pub open spec fn bucket_blocks(bucket: Seq<Ticket>, title: Seq<char>) -> Seq<BlockModel> {
    if bucket.len() == 0 {
        Seq::empty()
    } else {
        seq![
            BlockModel::Divider,
            BlockModel::Section { text: title },
            BlockModel::TicketList { items: ticket_list_model(bucket) },
        ]
    }
}

/// Lays out every ticket of `bucket` as its element line.
fn bucket_ticket_items(bucket: &std::collections::VecDeque<Ticket>) -> (r: Vec<
    Vec<ReportElement>,
>)
    requires
        bucket_renderable(bucket@),
    ensures
        items_views(r@) == ticket_list_model(bucket@),
{
    let mut items: Vec<Vec<ReportElement>> = Vec::new();
    let mut i: usize = 0;
    while i < bucket.len()
        invariant
            i <= bucket@.len(),
            bucket_renderable(bucket@),
            items@.len() == i,
            items_views(items@) == ticket_list_model(bucket@.subrange(0, i as int)),
        decreases bucket@.len() - i,
    {
        let ghost prev = items_views(items@);
        let line = bucket[i].into_slack_blocks();
        items.push(line);
        proof {
            let b = bucket@;
            let e = b[i as int].elements_model();
            assert(items_views(items@) =~= prev.push(e));
            assert(ticket_list_model(b.subrange(0, i + 1)) =~~= ticket_list_model(
                b.subrange(0, i as int),
            ).push(e));
            assert(ticket_list_model(b.subrange(0, i as int)).push(e) =~= prev.push(e));
            assert(items_views(items@) == ticket_list_model(b.subrange(0, i + 1)));
        }
        i += 1;
    }
    proof {
        assert(bucket@.subrange(0, bucket@.len() as int) =~= bucket@);
    }
    items
}

/// Appends the blocks of one bucket: a divider, its caption, and its ticket
/// lines; nothing where the bucket is empty.
fn push_bucket_blocks(
    out: &mut Vec<ReportBlock>,
    bucket: &std::collections::VecDeque<Ticket>,
    title: &str,
)
    requires
        bucket_renderable(bucket@),
    ensures
        block_views(final(out)@) == block_views(old(out)@) + bucket_blocks(bucket@, title@),
{
    let ghost before = block_views(out@);
    if bucket.len() > 0 {
        out.push(ReportBlock::Divider);
        out.push(ReportBlock::Section { text: title.to_owned() });
        let items = bucket_ticket_items(bucket);
        out.push(ReportBlock::TicketList { items });
        proof {
            assert(block_views(out@) =~= before + bucket_blocks(bucket@, title@));
        }
    } else {
        proof {
            assert(block_views(out@) =~= before + bucket_blocks(bucket@, title@));
        }
    }
}

impl crate::summary::TicketSummary {
    /// The blocks shown for the classified buckets, in report order: open
    /// pull requests, blocked pull requests, demos, open tickets, completed
    /// tickets and deferred tickets, each with its caption, empty buckets
    /// skipped, closed by a final divider.
    pub open spec fn blocks_model(&self) -> Seq<BlockModel> {
        bucket_blocks(self.open_prs@, "\n*\u{1F4E2} Open PRs*"@) + bucket_blocks(
            self.blocked_prs@,
            "\n*\u{1F6A8} Blocked PRs*"@,
        ) + bucket_blocks(self.demoes@, "\n*\u{1F3A5} Demo Available*"@) + bucket_blocks(
            self.open_tickets@,
            "\n*Open Tickets*"@,
        ) + bucket_blocks(self.completed_tickets@, "\n*\u{2705} Completed Tickets*"@)
            + bucket_blocks(self.deferred_tickets@, "\n*Deferred Tickets*"@) + seq![
            BlockModel::Divider,
        ]
    }

    /// Whether every bucket of the summary can be laid out.
    pub open spec fn renderable(&self) -> bool {
        &&& bucket_renderable(self.open_prs@)
        &&& bucket_renderable(self.blocked_prs@)
        &&& bucket_renderable(self.demoes@)
        &&& bucket_renderable(self.open_tickets@)
        &&& bucket_renderable(self.completed_tickets@)
        &&& bucket_renderable(self.deferred_tickets@)
    }

    /// Lays the summary out as its report blocks.
    pub fn into_slack_blocks(&self) -> (r: Vec<ReportBlock>)
        requires
            self.renderable(),
        ensures
            block_views(r@) == self.blocks_model(),
    {
        let mut blocks: Vec<ReportBlock> = Vec::new();
        push_bucket_blocks(&mut blocks, &self.open_prs, "\n*\u{1F4E2} Open PRs*");
        let ghost v1 = block_views(blocks@);
        push_bucket_blocks(&mut blocks, &self.blocked_prs, "\n*\u{1F6A8} Blocked PRs*");
        let ghost v2 = block_views(blocks@);
        push_bucket_blocks(&mut blocks, &self.demoes, "\n*\u{1F3A5} Demo Available*");
        let ghost v3 = block_views(blocks@);
        push_bucket_blocks(&mut blocks, &self.open_tickets, "\n*Open Tickets*");
        let ghost v4 = block_views(blocks@);
        push_bucket_blocks(&mut blocks, &self.completed_tickets, "\n*\u{2705} Completed Tickets*");
        let ghost v5 = block_views(blocks@);
        push_bucket_blocks(&mut blocks, &self.deferred_tickets, "\n*Deferred Tickets*");
        let ghost v6 = block_views(blocks@);
        blocks.push(ReportBlock::Divider);
        proof {
            assert(block_views(blocks@) =~= v6.push(BlockModel::Divider));
            assert(v6.push(BlockModel::Divider) =~= v6 + seq![BlockModel::Divider]);
            assert(block_views(blocks@) =~= self.blocks_model());
        }
        blocks
    }
}

/// The percentage text of a history entry: its hundredths rendered with two
/// fractional digits, or the undefined marker.
pub open spec fn percent_text(hundredths: Option<u64>) -> Seq<char> {
    match hundredths {
        Some(h) => crate::numfmt::percent_str(h as nat),
        None => "NaN"@,
    }
}

/// One line of the history rollup: the sprint's dates, its completed count
/// and its completion percentage.
pub open spec fn history_line(rec: crate::records::CumulativeSprintContext) -> Seq<char> {
    "\n"@ + rec.start_date@ + " - "@ + rec.end_date@ + ": *"@ + dec_str(
        rec.completed_tickets_count as nat,
    ) + " tickets | "@ + percent_text(rec.percent_complete_hundredths) + "%*"@
}

/// The history rollup's text: its caption, then one line per closed sprint,
/// oldest first.
pub open spec fn history_text(history: Seq<crate::records::CumulativeSprintContext>) -> Seq<char>
    decreases history.len(),
{
    if history.len() == 0 {
        Seq::empty()
    } else {
        history_text(history.drop_last()) + history_line(history.last())
    }
}

/// Renders one line of the history rollup.
fn history_line_string(record: &crate::records::CumulativeSprintContext) -> (r: String)
    ensures
        r@ == history_line(*record),
{
    let mut text = "\n".to_owned();
    text.append(record.start_date.as_str());
    text.append(" - ");
    text.append(record.end_date.as_str());
    text.append(": *");
    let count = u64_to_string(record.completed_tickets_count as u64);
    text.append(count.as_str());
    text.append(" tickets | ");
    match record.percent_complete_hundredths {
        Some(h) => {
            let p = crate::numfmt::percent_hundredths_to_string(h);
            text.append(p.as_str());
        },
        None => {
            text.append("NaN");
        },
    }
    text.append("%*");
    proof {
        reveal_strlit("\n");
        reveal_strlit(" - ");
        reveal_strlit(": *");
        reveal_strlit(" tickets | ");
        reveal_strlit("NaN");
        reveal_strlit("%*");
        assert(text@ =~= history_line(*record));
    }
    text
}

impl crate::records::CumulativeSprintContexts {
    /// The blocks of the historical rollup: one section listing every closed
    /// sprint; nothing where the history is empty.
    pub open spec fn blocks_model(&self) -> Seq<BlockModel> {
        if self.history@.len() == 0 {
            Seq::empty()
        } else {
            seq![
                BlockModel::Section {
                    text: "\n\n*Previous Sprints:*"@ + history_text(self.history@),
                },
            ]
        }
    }

    /// Lays the history rollup out as its report blocks.
    pub fn into_slack_blocks(&self) -> (r: Vec<ReportBlock>)
        ensures
            block_views(r@) == self.blocks_model(),
    {
        let mut blocks: Vec<ReportBlock> = Vec::new();
        if self.history.len() == 0 {
            proof {
                assert(block_views(blocks@) =~= self.blocks_model());
            }
            return blocks;
        }
        let mut text = "\n\n*Previous Sprints:*".to_owned();
        proof {
            assert(history_text(self.history@.subrange(0, 0)) =~= Seq::<char>::empty());
            assert(text@ =~= "\n\n*Previous Sprints:*"@ + history_text(
                self.history@.subrange(0, 0),
            ));
        }
        let mut i: usize = 0;
        while i < self.history.len()
            invariant
                i <= self.history@.len(),
                text@ == "\n\n*Previous Sprints:*"@ + history_text(
                    self.history@.subrange(0, i as int),
                ),
            decreases self.history@.len() - i,
        {
            let ghost prev = text@;
            let line = history_line_string(&self.history[i]);
            text.append(line.as_str());
            proof {
                assert(self.history@.subrange(0, i + 1).drop_last() =~= self.history@.subrange(
                    0,
                    i as int,
                ));
                assert(self.history@.subrange(0, i + 1).last() == self.history@[i as int]);
                assert(text@ =~= "\n\n*Previous Sprints:*"@ + history_text(
                    self.history@.subrange(0, i + 1),
                ));
            }
            i += 1;
        }
        proof {
            assert(self.history@.subrange(0, self.history@.len() as int) =~= self.history@);
        }
        blocks.push(ReportBlock::Section { text });
        proof {
            assert(block_views(blocks@) =~= self.blocks_model());
        }
        blocks
    }
}


/// Moves every block of `items` to the end of `out`, in order.
fn append_blocks(out: &mut Vec<ReportBlock>, items: Vec<ReportBlock>)
    ensures
        final(out)@ == old(out)@ + items@,
        block_views(final(out)@) == block_views(old(out)@) + block_views(items@),
{
    let ghost orig_out = out@;
    let ghost orig_items = items@;
    let mut rest = items;
    while rest.len() > 0
        invariant
            out@ + rest@ =~= orig_out + orig_items,
        decreases rest@.len(),
    {
        let e = rest.remove(0);
        out.push(e);
    }
    proof {
        assert(out@ =~= orig_out + orig_items);
        assert(block_views(out@) =~= block_views(orig_out) + block_views(orig_items));
    }
}

/// The completion percentage a summary shows: undefined where the sprint
/// holds no tickets.
pub open spec fn summary_percent_text(s: crate::summary::TicketSummary) -> Seq<char> {
    if s.sprint_ticket_count == 0 {
        "NaN"@
    } else {
        crate::numfmt::percent_str(
            ((20000 * s.completed_tickets@.len() + s.sprint_ticket_count) / (2
                * s.sprint_ticket_count as int)) as nat,
        )
    }
}

/// Renders the completion percentage of a summary.
fn summary_percent_string(s: &crate::summary::TicketSummary) -> (r: String)
    requires
        s.completed_tickets@.len() <= s.sprint_ticket_count,
    ensures
        r@ == summary_percent_text(*s),
{
    match s.completed_percentage_hundredths() {
        Some(h) => crate::numfmt::percent_hundredths_to_string(h),
        None => {
            proof {
                reveal_strlit("NaN");
            }
            "NaN".to_owned()
        },
    }
}

/// The scope line: how many tickets are left in the project's backlog.
pub open spec fn project_scope_text(s: crate::summary::TicketSummary) -> Seq<char> {
    dec_str(s.project_ticket_count_in_scope as nat) + " tickets left in project scope."@
}

fn project_scope_section(s: &crate::summary::TicketSummary) -> (r: ReportBlock)
    ensures
        r@ == (BlockModel::Section { text: project_scope_text(*s) }),
{
    let mut text = u64_to_string(s.project_ticket_count_in_scope as u64);
    text.append(" tickets left in project scope.");
    proof {
        reveal_strlit(" tickets left in project scope.");
        assert(text@ =~= project_scope_text(*s));
    }
    ReportBlock::Section { text }
}

/// The board link shown under every report.
pub open spec fn board_link_text(board: Seq<char>) -> Seq<char> {
    "<https://trello.com/b/"@ + board + "|View sprint board>"@
}

fn board_link_context(board: &str) -> (r: ReportBlock)
    ensures
        r@ == (BlockModel::Context { text: board_link_text(board@) }),
{
    let mut text = "<https://trello.com/b/".to_owned();
    text.append(board);
    text.append("|View sprint board>");
    proof {
        reveal_strlit("<https://trello.com/b/");
        reveal_strlit("|View sprint board>");
        assert(text@ =~= board_link_text(board@));
    }
    ReportBlock::Context { text }
}

/// The count line of a preview or kickoff: the open tickets and the days to
/// the end date.
pub open spec fn count_days_text(s: crate::summary::TicketSummary, days: int) -> Seq<char> {
    "*"@ + dec_str(s.open_ticket_count as nat) + " Tickets*\n*"@ + dec_str_signed(days)
        + " Days*"@
}

fn count_days_section(s: &crate::summary::TicketSummary, days: i64) -> (r: ReportBlock)
    ensures
        r@ == (BlockModel::Section { text: count_days_text(*s, days as int) }),
{
    let mut text = "*".to_owned();
    let open = u64_to_string(s.open_ticket_count as u64);
    text.append(open.as_str());
    text.append(" Tickets*\n*");
    let d = i64_to_string(days);
    text.append(d.as_str());
    text.append(" Days*");
    proof {
        reveal_strlit("*");
        reveal_strlit(" Tickets*\n*");
        reveal_strlit(" Days*");
        assert(text@ =~= count_days_text(*s, days as int));
    }
    ReportBlock::Section { text }
}

/// The standing line shown mid-sprint: open tickets out of the sprint's, and
/// the days remaining.
pub open spec fn standing_text(s: crate::summary::TicketSummary, days_left: int) -> Seq<char> {
    "*"@ + dec_str(s.open_ticket_count as nat) + " tickets open* out of "@ + dec_str(
        s.sprint_ticket_count as nat,
    ) + ".\n*"@ + dec_str_signed(days_left) + " days* remain in sprint."@
}

fn standing_section(s: &crate::summary::TicketSummary, days_left: i64) -> (r: ReportBlock)
    ensures
        r@ == (BlockModel::Section { text: standing_text(*s, days_left as int) }),
{
    let mut text = "*".to_owned();
    let open = u64_to_string(s.open_ticket_count as u64);
    text.append(open.as_str());
    text.append(" tickets open* out of ");
    let total = u64_to_string(s.sprint_ticket_count as u64);
    text.append(total.as_str());
    text.append(".\n*");
    let d = i64_to_string(days_left);
    text.append(d.as_str());
    text.append(" days* remain in sprint.");
    proof {
        reveal_strlit("*");
        reveal_strlit(" tickets open* out of ");
        reveal_strlit(".\n*");
        reveal_strlit(" days* remain in sprint.");
        assert(text@ =~= standing_text(*s, days_left as int));
    }
    ReportBlock::Section { text }
}

/// The completion line shown mid-sprint.
pub open spec fn completion_text(s: crate::summary::TicketSummary) -> Seq<char> {
    "\n*"@ + summary_percent_text(s) + "% of sprint scope completed.*"@
}

fn completion_section(s: &crate::summary::TicketSummary) -> (r: ReportBlock)
    requires
        s.completed_tickets@.len() <= s.sprint_ticket_count,
    ensures
        r@ == (BlockModel::Section { text: completion_text(*s) }),
{
    let mut text = "\n*".to_owned();
    let p = summary_percent_string(s);
    text.append(p.as_str());
    text.append("% of sprint scope completed.*");
    proof {
        reveal_strlit("\n*");
        reveal_strlit("% of sprint scope completed.*");
        assert(text@ =~= completion_text(*s));
    }
    ReportBlock::Section { text }
}

/// The completion line of a closing report, padded with a closing break.
pub open spec fn completion_closing_text(s: crate::summary::TicketSummary) -> Seq<char> {
    "\n*"@ + summary_percent_text(s) + "% of sprint scope completed.*\n"@
}

fn completion_closing_section(s: &crate::summary::TicketSummary) -> (r: ReportBlock)
    requires
        s.completed_tickets@.len() <= s.sprint_ticket_count,
    ensures
        r@ == (BlockModel::Section { text: completion_closing_text(*s) }),
{
    let mut text = "\n*".to_owned();
    let p = summary_percent_string(s);
    text.append(p.as_str());
    text.append("% of sprint scope completed.*\n");
    proof {
        reveal_strlit("\n*");
        reveal_strlit("% of sprint scope completed.*\n");
        assert(text@ =~= completion_closing_text(*s));
    }
    ReportBlock::Section { text }
}

/// The tally line of a closing report: completed out of the sprint's
/// tickets, and the days the sprint ran.
pub open spec fn tally_text(s: crate::summary::TicketSummary, days: int) -> Seq<char> {
    "\n*"@ + dec_str(s.completed_tickets@.len() as nat) + "/"@ + dec_str(
        s.sprint_ticket_count as nat,
    ) + " tickets completed in "@ + dec_str_signed(days) + " days.*"@
}

fn tally_section(s: &crate::summary::TicketSummary, days: i64) -> (r: ReportBlock)
    ensures
        r@ == (BlockModel::Section { text: tally_text(*s, days as int) }),
{
    let mut text = "\n*".to_owned();
    let c = u64_to_string(s.completed_tickets.len() as u64);
    text.append(c.as_str());
    text.append("/");
    let n = u64_to_string(s.sprint_ticket_count as u64);
    text.append(n.as_str());
    text.append(" tickets completed in ");
    let d = i64_to_string(days);
    text.append(d.as_str());
    text.append(" days.*");
    proof {
        reveal_strlit("\n*");
        reveal_strlit("/");
        reveal_strlit(" tickets completed in ");
        reveal_strlit(" days.*");
        assert(text@ =~= tally_text(*s, days as int));
    }
    ReportBlock::Section { text }
}

/// The standings caption of a closing report, a league tier per completion
/// share: each share of the scope completed earns the next title, a full
/// sweep the trophy, and an undefined share a raised eyebrow.
pub open spec fn tier_text(s: crate::summary::TicketSummary) -> Seq<char> {
    let c = s.completed_tickets@.len() as int;
    let n = s.sprint_ticket_count as int;
    if n > 0 && 0 <= 100 * c && 100 * c < 25 * n {
        "\u{1F422} League Entrants"@
    } else if n > 0 && 25 * n <= 100 * c && 100 * c < 50 * n {
        "\u{1F949} Local Competitors"@
    } else if n > 0 && 50 * n <= 100 * c && 100 * c < 65 * n {
        "\u{1F948} Playoff Contenders"@
    } else if n > 0 && 65 * n <= 100 * c && 100 * c < 80 * n {
        "\u{1F947} Division Leaders"@
    } else if n > 0 && 80 * n <= 100 * c && 100 * c < 90 * n {
        "\u{1F3C5} Conference Finalists"@
    } else if n > 0 && 90 * n <= 100 * c && 100 * c < 100 * n {
        "\u{1F396}\u{FE0F} World Series Elites"@
    } else if n > 0 && c == n {
        "\u{1F3C6} Sprint Champions!"@
    } else {
        "\u{2049}\u{FE0F} Disqualified?"@
    }
}

fn tier_header(s: &crate::summary::TicketSummary) -> (r: ReportBlock)
    requires
        s.completed_tickets@.len() <= s.sprint_ticket_count,
    ensures
        r@ == (BlockModel::Header { text: tier_text(*s) }),
{
    let c: u64 = s.completed_tickets.len() as u64;
    let n: u64 = s.sprint_ticket_count as u64;
    let text: &'static str = if n > 0 && 100 * c < 25 * n {
        "\u{1F422} League Entrants"
    } else if n > 0 && 25 * n <= 100 * c && 100 * c < 50 * n {
        "\u{1F949} Local Competitors"
    } else if n > 0 && 50 * n <= 100 * c && 100 * c < 65 * n {
        "\u{1F948} Playoff Contenders"
    } else if n > 0 && 65 * n <= 100 * c && 100 * c < 80 * n {
        "\u{1F947} Division Leaders"
    } else if n > 0 && 80 * n <= 100 * c && 100 * c < 90 * n {
        "\u{1F3C5} Conference Finalists"
    } else if n > 0 && 90 * n <= 100 * c && 100 * c < 100 * n {
        "\u{1F396}\u{FE0F} World Series Elites"
    } else if n > 0 && c == n {
        "\u{1F3C6} Sprint Champions!"
    } else {
        "\u{2049}\u{FE0F} Disqualified?"
    };
    ReportBlock::Header { text: text.to_owned() }
}

/// A section holding how a count moved, with its caption.
pub open spec fn delta_text(num1: int, num2: int, caption: Seq<char>) -> Seq<char> {
    "\n"@ + count_difference_text(num1, num2) + caption
}

fn delta_section(num1: i64, num2: i64, caption: &str) -> (r: ReportBlock)
    ensures
        r@ == (BlockModel::Section { text: delta_text(num1 as int, num2 as int, caption@) }),
{
    let mut text = "\n".to_owned();
    let diff: i128 = (num1 as i128) - (num2 as i128);
    let magnitude_str = if diff != 0 {
        let magnitude: u64 = if diff < 0 {
            ((-diff) as u64)
        } else {
            (diff as u64)
        };
        let mut d = u64_to_string(magnitude);
        d.append(" tickets ");
        if diff < 0 {
            d.append("removed from");
        } else {
            d.append("added to");
        }
        proof {
            reveal_strlit(" tickets ");
            assert(d@ =~= count_difference_text(num1 as int, num2 as int));
        }
        d
    } else {
        "No tickets added to".to_owned()
    };
    text.append(magnitude_str.as_str());
    text.append(caption);
    proof {
        reveal_strlit("\n");
        assert(text@ =~= delta_text(num1 as int, num2 as int, caption@));
    }
    ReportBlock::Section { text }
}


/// The preview message: its header, the open count and days, how many
/// tickets carry over, the history rollup, the classified buckets, the scope
/// line, the board link, and the kickoff button.
pub open spec fn preview_message_model(
    name: Seq<char>,
    end_date: Seq<char>,
    today: Seq<char>,
    days: int,
    carried: int,
    s: crate::summary::TicketSummary,
    history: crate::records::CumulativeSprintContexts,
    board: Seq<char>,
) -> Seq<BlockModel> {
    seq![
        BlockModel::Header {
            text: "\u{1F52D} Sprint "@ + name + " Preview: "@ + today + " - "@ + end_date,
        },
        BlockModel::Section { text: count_days_text(s, days) },
        BlockModel::Section {
            text: "\n"@ + dec_str(carried as nat)
                + " tickets will be carried over from last sprint."@,
        },
    ] + history.blocks_model() + s.blocks_model() + seq![
        BlockModel::Section { text: project_scope_text(s) },
        BlockModel::Context { text: board_link_text(board) },
        BlockModel::Button {
            label: "Kick Off"@,
            action_id: "/sprint-kickoff-confirm"@,
            value: end_date + " "@ + name,
        },
    ]
}

fn preview_message(
    name: &str,
    end_date: &str,
    today: &str,
    days: i64,
    carried: usize,
    s: &crate::summary::TicketSummary,
    history: &crate::records::CumulativeSprintContexts,
    board: &str,
) -> (r: Vec<ReportBlock>)
    requires
        s.renderable(),
    ensures
        block_views(r@) == preview_message_model(
            name@,
            end_date@,
            today@,
            days as int,
            carried as int,
            *s,
            *history,
            board@,
        ),
{
    let mut blocks: Vec<ReportBlock> = Vec::new();
    let mut header = "\u{1F52D} Sprint ".to_owned();
    header.append(name);
    header.append(" Preview: ");
    header.append(today);
    header.append(" - ");
    header.append(end_date);
    proof {
        reveal_strlit("\u{1F52D} Sprint ");
        reveal_strlit(" Preview: ");
        reveal_strlit(" - ");
        assert(header@ =~= "\u{1F52D} Sprint "@ + name@ + " Preview: "@ + today@ + " - "@
            + end_date@);
    }
    blocks.push(ReportBlock::Header { text: header });
    let counts = count_days_section(s, days);
    blocks.push(counts);
    let mut carry = "\n".to_owned();
    let carried_str = u64_to_string(carried as u64);
    carry.append(carried_str.as_str());
    carry.append(" tickets will be carried over from last sprint.");
    proof {
        reveal_strlit("\n");
        reveal_strlit(" tickets will be carried over from last sprint.");
        assert(carry@ =~= "\n"@ + dec_str(carried as nat)
            + " tickets will be carried over from last sprint."@);
    }
    blocks.push(ReportBlock::Section { text: carry });
    let ghost v0 = block_views(blocks@);
    let history_blocks = history.into_slack_blocks();
    append_blocks(&mut blocks, history_blocks);
    let ghost v1 = block_views(blocks@);
    let summary_blocks = s.into_slack_blocks();
    append_blocks(&mut blocks, summary_blocks);
    let ghost v2 = block_views(blocks@);
    let scope = project_scope_section(s);
    blocks.push(scope);
    let board_block = board_link_context(board);
    blocks.push(board_block);
    let mut value = end_date.to_owned();
    value.append(" ");
    value.append(name);
    proof {
        reveal_strlit(" ");
        assert(value@ =~= end_date@ + " "@ + name@);
    }
    blocks.push(
        ReportBlock::Button {
            label: "Kick Off".to_owned(),
            action_id: "/sprint-kickoff-confirm".to_owned(),
            value,
        },
    );
    proof {
        assert(block_views(blocks@) =~= preview_message_model(
            name@,
            end_date@,
            today@,
            days as int,
            carried as int,
            *s,
            *history,
            board@,
        ));
    }
    blocks
}

/// The kickoff message: its header, the starting gun, the open count and
/// days, the classified buckets, and the board link.
pub open spec fn kickoff_message_model(
    name: Seq<char>,
    end_date: Seq<char>,
    today: Seq<char>,
    days: int,
    s: crate::summary::TicketSummary,
    board: Seq<char>,
) -> Seq<BlockModel> {
    seq![
        BlockModel::Header {
            text: "\u{1F680} Sprint "@ + name + " Kickoff: "@ + today + " - "@ + end_date,
        },
        BlockModel::Section { text: "\nSprint starts now!"@ },
        BlockModel::Section { text: count_days_text(s, days) },
    ] + s.blocks_model() + seq![BlockModel::Context { text: board_link_text(board) }]
}

fn kickoff_message(
    name: &str,
    end_date: &str,
    today: &str,
    days: i64,
    s: &crate::summary::TicketSummary,
    board: &str,
) -> (r: Vec<ReportBlock>)
    requires
        s.renderable(),
    ensures
        block_views(r@) == kickoff_message_model(
            name@,
            end_date@,
            today@,
            days as int,
            *s,
            board@,
        ),
{
    let mut blocks: Vec<ReportBlock> = Vec::new();
    let mut header = "\u{1F680} Sprint ".to_owned();
    header.append(name);
    header.append(" Kickoff: ");
    header.append(today);
    header.append(" - ");
    header.append(end_date);
    proof {
        reveal_strlit("\u{1F680} Sprint ");
        reveal_strlit(" Kickoff: ");
        reveal_strlit(" - ");
        assert(header@ =~= "\u{1F680} Sprint "@ + name@ + " Kickoff: "@ + today@ + " - "@
            + end_date@);
    }
    blocks.push(ReportBlock::Header { text: header });
    blocks.push(ReportBlock::Section { text: "\nSprint starts now!".to_owned() });
    let counts = count_days_section(s, days);
    blocks.push(counts);
    let summary_blocks = s.into_slack_blocks();
    append_blocks(&mut blocks, summary_blocks);
    let board_block = board_link_context(board);
    blocks.push(board_block);
    proof {
        assert(block_views(blocks@) =~= kickoff_message_model(
            name@,
            end_date@,
            today@,
            days as int,
            *s,
            board@,
        ));
    }
    blocks
}

/// The check-in message: its header, the standing, the completion share, the
/// classified buckets, the scope line and the board link.
pub open spec fn checkin_message_model(
    name: Seq<char>,
    today: Seq<char>,
    days_left: int,
    s: crate::summary::TicketSummary,
    board: Seq<char>,
) -> Seq<BlockModel> {
    seq![
        BlockModel::Header {
            text: "\u{1F6F0}\u{FE0F} Sprint "@ + name + " Check-In: "@ + today,
        },
        BlockModel::Section { text: standing_text(s, days_left) },
        BlockModel::Section { text: completion_text(s) },
    ] + s.blocks_model() + seq![
        BlockModel::Section { text: project_scope_text(s) },
        BlockModel::Context { text: board_link_text(board) },
    ]
}

fn checkin_message(
    name: &str,
    today: &str,
    days_left: i64,
    s: &crate::summary::TicketSummary,
    board: &str,
) -> (r: Vec<ReportBlock>)
    requires
        s.renderable(),
        s.completed_tickets@.len() <= s.sprint_ticket_count,
    ensures
        block_views(r@) == checkin_message_model(name@, today@, days_left as int, *s, board@),
{
    let mut blocks: Vec<ReportBlock> = Vec::new();
    let mut header = "\u{1F6F0}\u{FE0F} Sprint ".to_owned();
    header.append(name);
    header.append(" Check-In: ");
    header.append(today);
    proof {
        reveal_strlit("\u{1F6F0}\u{FE0F} Sprint ");
        reveal_strlit(" Check-In: ");
        assert(header@ =~= "\u{1F6F0}\u{FE0F} Sprint "@ + name@ + " Check-In: "@ + today@);
    }
    blocks.push(ReportBlock::Header { text: header });
    let standing = standing_section(s, days_left);
    blocks.push(standing);
    let completion = completion_section(s);
    blocks.push(completion);
    let summary_blocks = s.into_slack_blocks();
    append_blocks(&mut blocks, summary_blocks);
    let scope = project_scope_section(s);
    blocks.push(scope);
    let board_block = board_link_context(board);
    blocks.push(board_block);
    proof {
        assert(block_views(blocks@) =~= checkin_message_model(
            name@,
            today@,
            days_left as int,
            *s,
            board@,
        ));
    }
    blocks
}

/// The cancellation message: its header, the tally, the completion share, a
/// note that nothing is saved, the classified buckets, the scope line and
/// the board link.
pub open spec fn cancel_message_model(
    name: Seq<char>,
    days: int,
    s: crate::summary::TicketSummary,
    board: Seq<char>,
) -> Seq<BlockModel> {
    seq![
        BlockModel::Header { text: "\u{1F534} Sprint "@ + name + " is cancelled."@ },
        BlockModel::Section { text: tally_text(s, days) },
        BlockModel::Section { text: completion_closing_text(s) },
        BlockModel::Section { text: "\nProgress will not be saved.\n"@ },
    ] + s.blocks_model() + seq![
        BlockModel::Section { text: project_scope_text(s) },
        BlockModel::Context { text: board_link_text(board) },
    ]
}

fn cancel_message(
    name: &str,
    days: i64,
    s: &crate::summary::TicketSummary,
    board: &str,
) -> (r: Vec<ReportBlock>)
    requires
        s.renderable(),
        s.completed_tickets@.len() <= s.sprint_ticket_count,
    ensures
        block_views(r@) == cancel_message_model(name@, days as int, *s, board@),
{
    let mut blocks: Vec<ReportBlock> = Vec::new();
    let mut header = "\u{1F534} Sprint ".to_owned();
    header.append(name);
    header.append(" is cancelled.");
    proof {
        reveal_strlit("\u{1F534} Sprint ");
        reveal_strlit(" is cancelled.");
        assert(header@ =~= "\u{1F534} Sprint "@ + name@ + " is cancelled."@);
    }
    blocks.push(ReportBlock::Header { text: header });
    let tally = tally_section(s, days);
    blocks.push(tally);
    let completion = completion_closing_section(s);
    blocks.push(completion);
    blocks.push(ReportBlock::Section { text: "\nProgress will not be saved.\n".to_owned() });
    let summary_blocks = s.into_slack_blocks();
    append_blocks(&mut blocks, summary_blocks);
    let scope = project_scope_section(s);
    blocks.push(scope);
    let board_block = board_link_context(board);
    blocks.push(board_block);
    proof {
        assert(block_views(blocks@) =~= cancel_message_model(name@, days as int, *s, board@));
    }
    blocks
}

/// The closing message of an end or review: its header (an early end has its
/// own), the tally, the completion share, the league tier, the history
/// rollup, the classified buckets, the two delta lines, the scope line and
/// the board link.
pub open spec fn review_message_model(
    ctx: crate::records::ActiveSprintContext,
    is_end: bool,
    days: int,
    s: crate::summary::TicketSummary,
    history: crate::records::CumulativeSprintContexts,
    board: Seq<char>,
) -> Seq<BlockModel> {
    let header = if is_end {
        "\u{1F4A5} Sprint "@ + ctx.name@ + " ended early."@
    } else {
        "\u{1F386} Sprint "@ + ctx.name@ + " Review: "@ + ctx.start_date@ + " - "@
            + ctx.end_date@
    };
    seq![
        BlockModel::Header { text: header },
        BlockModel::Section { text: tally_text(s, days) },
        BlockModel::Section { text: completion_closing_text(s) },
        BlockModel::Header { text: tier_text(s) },
    ] + history.blocks_model() + s.blocks_model() + seq![
        BlockModel::Section {
            text: delta_text(
                s.open_ticket_count as int,
                ctx.open_tickets_count_beginning as int,
                " this sprint."@,
            ),
        },
        BlockModel::Section {
            text: delta_text(
                s.sprint_ticket_count as int,
                ctx.in_scope_tickets_count_beginning as int,
                " project scope."@,
            ),
        },
        BlockModel::Section { text: project_scope_text(s) },
        BlockModel::Context { text: board_link_text(board) },
    ]
}

fn review_message(
    ctx: &crate::records::ActiveSprintContext,
    is_end: bool,
    days: i64,
    s: &crate::summary::TicketSummary,
    history: &crate::records::CumulativeSprintContexts,
    board: &str,
) -> (r: Vec<ReportBlock>)
    requires
        s.renderable(),
        s.completed_tickets@.len() <= s.sprint_ticket_count,
    ensures
        block_views(r@) == review_message_model(*ctx, is_end, days as int, *s, *history, board@),
{
    let mut blocks: Vec<ReportBlock> = Vec::new();
    let header = if is_end {
        let mut h = "\u{1F4A5} Sprint ".to_owned();
        h.append(ctx.name.as_str());
        h.append(" ended early.");
        proof {
            reveal_strlit("\u{1F4A5} Sprint ");
            reveal_strlit(" ended early.");
            assert(h@ =~= "\u{1F4A5} Sprint "@ + ctx.name@ + " ended early."@);
        }
        h
    } else {
        let mut h = "\u{1F386} Sprint ".to_owned();
        h.append(ctx.name.as_str());
        h.append(" Review: ");
        h.append(ctx.start_date.as_str());
        h.append(" - ");
        h.append(ctx.end_date.as_str());
        proof {
            reveal_strlit("\u{1F386} Sprint ");
            reveal_strlit(" Review: ");
            reveal_strlit(" - ");
            assert(h@ =~= "\u{1F386} Sprint "@ + ctx.name@ + " Review: "@ + ctx.start_date@
                + " - "@ + ctx.end_date@);
        }
        h
    };
    blocks.push(ReportBlock::Header { text: header });
    let tally = tally_section(s, days);
    blocks.push(tally);
    let completion = completion_closing_section(s);
    blocks.push(completion);
    let tier = tier_header(s);
    blocks.push(tier);
    let history_blocks = history.into_slack_blocks();
    append_blocks(&mut blocks, history_blocks);
    let summary_blocks = s.into_slack_blocks();
    append_blocks(&mut blocks, summary_blocks);
    let open_delta = delta_section(
        s.open_ticket_count as i64,
        ctx.open_tickets_count_beginning as i64,
        " this sprint.",
    );
    blocks.push(open_delta);
    let scope_delta = delta_section(
        s.sprint_ticket_count as i64,
        ctx.in_scope_tickets_count_beginning as i64,
        " project scope.",
    );
    blocks.push(scope_delta);
    let scope = project_scope_section(s);
    blocks.push(scope);
    let board_block = board_link_context(board);
    blocks.push(board_block);
    proof {
        assert(block_views(blocks@) =~= review_message_model(
            *ctx,
            is_end,
            days as int,
            *s,
            *history,
            board@,
        ));
    }
    blocks
}

/// The daily summary message: the moon-phase header, the standing, the
/// completion share, the classified buckets, the board link and the scope
/// line.
pub open spec fn daily_message_model(
    indicator: Seq<char>,
    today: Seq<char>,
    days_left: int,
    s: crate::summary::TicketSummary,
    board: Seq<char>,
) -> Seq<BlockModel> {
    seq![
        BlockModel::Header { text: indicator + " Daily Summary: "@ + today },
        BlockModel::Section { text: standing_text(s, days_left) },
        BlockModel::Section { text: completion_text(s) },
    ] + s.blocks_model() + seq![
        BlockModel::Context { text: board_link_text(board) },
        BlockModel::Section { text: project_scope_text(s) },
    ]
}

fn daily_message(
    indicator: &str,
    today: &str,
    days_left: i64,
    s: &crate::summary::TicketSummary,
    board: &str,
) -> (r: Vec<ReportBlock>)
    requires
        s.renderable(),
        s.completed_tickets@.len() <= s.sprint_ticket_count,
    ensures
        block_views(r@) == daily_message_model(indicator@, today@, days_left as int, *s, board@),
{
    let mut blocks: Vec<ReportBlock> = Vec::new();
    let mut header = indicator.to_owned();
    header.append(" Daily Summary: ");
    header.append(today);
    proof {
        reveal_strlit(" Daily Summary: ");
        assert(header@ =~= indicator@ + " Daily Summary: "@ + today@);
    }
    blocks.push(ReportBlock::Header { text: header });
    let standing = standing_section(s, days_left);
    blocks.push(standing);
    let completion = completion_section(s);
    blocks.push(completion);
    let summary_blocks = s.into_slack_blocks();
    append_blocks(&mut blocks, summary_blocks);
    let board_block = board_link_context(board);
    blocks.push(board_block);
    let scope = project_scope_section(s);
    blocks.push(scope);
    proof {
        assert(block_views(blocks@) =~= daily_message_model(
            indicator@,
            today@,
            days_left as int,
            *s,
            board@,
        ));
    }
    blocks
}


impl crate::commands::SprintCommand {
    /// Composes the report for a command: each command's blocks as its model
    /// names them, built from the classified summary, the active context,
    /// the history, the persisted snapshots, the board handle and today's
    /// date. A date that does not parse is rejected rather than shown wrong.
    pub fn create_sprint_message(
        &self,
        ticket_summary: &crate::summary::TicketSummary,
        active_sprint_context: &Option<crate::records::ActiveSprintContext>,
        cumulative_sprint_contexts: &crate::records::CumulativeSprintContexts,
        daily_ticket_contexts: &crate::records::DailyTicketContexts,
        trello_board: &str,
        today: &str,
    ) -> (r: Result<Vec<ReportBlock>, crate::commands::SprintCommandError>)
        requires
            ticket_summary.renderable(),
            ticket_summary.completed_tickets@.len() <= ticket_summary.sprint_ticket_count,
            (*self is SprintCheckIn || *self is SprintCancel || *self is SprintEnd
                || *self is SprintReview || *self is DailySummary) ==> active_sprint_context
                is Some,
        ensures
            *self matches crate::commands::SprintCommand::SprintPreview {
                sprint_name,
                end_date,
                ..
            } ==> {
                &&& (crate::dates::day_number_of(today@) is None || crate::dates::day_number_of(
                    end_date@,
                ) is None) ==> r == Result::<
                    Vec<ReportBlock>,
                    crate::commands::SprintCommandError,
                >::Err(crate::commands::SprintCommandError::InvalidDate)
                &&& (crate::dates::day_number_of(today@) is Some && crate::dates::day_number_of(
                    end_date@,
                ) is Some) ==> (r matches Ok(blocks) && block_views(blocks@)
                    == preview_message_model(
                    sprint_name@,
                    end_date@,
                    today@,
                    crate::dates::day_number_of(end_date@).unwrap()
                        - crate::dates::day_number_of(today@).unwrap(),
                    crate::records::DailyTicketContexts::spec_open_count(
                        daily_ticket_contexts.tickets@,
                    ),
                    *ticket_summary,
                    *cumulative_sprint_contexts,
                    trello_board@,
                ))
            },
            *self matches crate::commands::SprintCommand::SprintKickoff {
                sprint_name,
                end_date,
                ..
            } ==> {
                &&& (crate::dates::day_number_of(today@) is None || crate::dates::day_number_of(
                    end_date@,
                ) is None) ==> r == Result::<
                    Vec<ReportBlock>,
                    crate::commands::SprintCommandError,
                >::Err(crate::commands::SprintCommandError::InvalidDate)
                &&& (crate::dates::day_number_of(today@) is Some && crate::dates::day_number_of(
                    end_date@,
                ) is Some) ==> (r matches Ok(blocks) && block_views(blocks@)
                    == kickoff_message_model(
                    sprint_name@,
                    end_date@,
                    today@,
                    crate::dates::day_number_of(end_date@).unwrap()
                        - crate::dates::day_number_of(today@).unwrap(),
                    *ticket_summary,
                    trello_board@,
                ))
            },
            *self is SprintCheckIn ==> (active_sprint_context matches Some(ctx) ==> {
                &&& (crate::dates::day_number_of(today@) is None || crate::dates::day_number_of(
                    ctx.end_date@,
                ) is None) ==> r == Result::<
                    Vec<ReportBlock>,
                    crate::commands::SprintCommandError,
                >::Err(crate::commands::SprintCommandError::InvalidDate)
                &&& (crate::dates::day_number_of(today@) is Some && crate::dates::day_number_of(
                    ctx.end_date@,
                ) is Some) ==> (r matches Ok(blocks) && block_views(blocks@)
                    == checkin_message_model(
                    ctx.name@,
                    today@,
                    crate::dates::day_number_of(ctx.end_date@).unwrap()
                        - crate::dates::day_number_of(today@).unwrap(),
                    *ticket_summary,
                    trello_board@,
                ))
            }),
            *self is SprintCancel ==> (active_sprint_context matches Some(ctx) ==> {
                &&& (crate::dates::day_number_of(ctx.start_date@) is None
                    || crate::dates::day_number_of(today@) is None) ==> r == Result::<
                    Vec<ReportBlock>,
                    crate::commands::SprintCommandError,
                >::Err(crate::commands::SprintCommandError::InvalidDate)
                &&& (crate::dates::day_number_of(ctx.start_date@) is Some
                    && crate::dates::day_number_of(today@) is Some) ==> (r matches Ok(blocks)
                    && block_views(blocks@) == cancel_message_model(
                    ctx.name@,
                    crate::dates::day_number_of(today@).unwrap()
                        - crate::dates::day_number_of(ctx.start_date@).unwrap(),
                    *ticket_summary,
                    trello_board@,
                ))
            }),
            (*self is SprintEnd || *self is SprintReview) ==> (active_sprint_context
                matches Some(ctx) ==> {
                &&& (crate::dates::day_number_of(ctx.start_date@) is None
                    || crate::dates::day_number_of(today@) is None) ==> r == Result::<
                    Vec<ReportBlock>,
                    crate::commands::SprintCommandError,
                >::Err(crate::commands::SprintCommandError::InvalidDate)
                &&& (crate::dates::day_number_of(ctx.start_date@) is Some
                    && crate::dates::day_number_of(today@) is Some) ==> (r matches Ok(blocks)
                    && block_views(blocks@) == review_message_model(
                    *ctx,
                    *self is SprintEnd,
                    crate::dates::day_number_of(today@).unwrap()
                        - crate::dates::day_number_of(ctx.start_date@).unwrap(),
                    *ticket_summary,
                    *cumulative_sprint_contexts,
                    trello_board@,
                ))
            }),
            *self is DailySummary ==> (active_sprint_context matches Some(ctx) ==> {
                &&& (crate::dates::day_number_of(ctx.start_date@) is None
                    || crate::dates::day_number_of(ctx.end_date@) is None
                    || crate::dates::day_number_of(today@) is None) ==> r == Result::<
                    Vec<ReportBlock>,
                    crate::commands::SprintCommandError,
                >::Err(crate::commands::SprintCommandError::InvalidDate)
                &&& (crate::dates::day_number_of(ctx.start_date@) is Some
                    && crate::dates::day_number_of(ctx.end_date@) is Some
                    && crate::dates::day_number_of(today@) is Some) ==> (r matches Ok(blocks)
                    && block_views(blocks@) == daily_message_model(
                    crate::records::phase_symbol(
                        crate::records::indicator_phase(
                            crate::dates::day_number_of(ctx.end_date@).unwrap()
                                - crate::dates::day_number_of(today@).unwrap(),
                            crate::dates::day_number_of(ctx.end_date@).unwrap()
                                - crate::dates::day_number_of(ctx.start_date@).unwrap(),
                        ),
                    ),
                    today@,
                    crate::dates::day_number_of(ctx.end_date@).unwrap()
                        - crate::dates::day_number_of(today@).unwrap(),
                    *ticket_summary,
                    trello_board@,
                ))
            }),
    {
        match self {
            crate::commands::SprintCommand::SprintPreview { sprint_name, end_date, .. } => {
                let days = match crate::dates::days_between_strs(today, end_date.as_str()) {
                    Some(d) => d,
                    None => {
                        return Err(crate::commands::SprintCommandError::InvalidDate);
                    },
                };
                let carried = daily_ticket_contexts.count_open_tickets();
                Ok(
                    preview_message(
                        sprint_name.as_str(),
                        end_date.as_str(),
                        today,
                        days,
                        carried,
                        ticket_summary,
                        cumulative_sprint_contexts,
                        trello_board,
                    ),
                )
            },
            crate::commands::SprintCommand::SprintKickoff { sprint_name, end_date, .. } => {
                let days = match crate::dates::days_between_strs(today, end_date.as_str()) {
                    Some(d) => d,
                    None => {
                        return Err(crate::commands::SprintCommandError::InvalidDate);
                    },
                };
                Ok(
                    kickoff_message(
                        sprint_name.as_str(),
                        end_date.as_str(),
                        today,
                        days,
                        ticket_summary,
                        trello_board,
                    ),
                )
            },
            crate::commands::SprintCommand::SprintCheckIn => {
                let ctx = match active_sprint_context {
                    Some(c) => c,
                    None => {
                        proof {
                            assert(false);
                        }
                        return Err(crate::commands::SprintCommandError::MissingActiveContext);
                    },
                };
                let days_left = match ctx.days_until_end(today) {
                    Some(d) => d,
                    None => {
                        return Err(crate::commands::SprintCommandError::InvalidDate);
                    },
                };
                Ok(
                    checkin_message(
                        ctx.name.as_str(),
                        today,
                        days_left,
                        ticket_summary,
                        trello_board,
                    ),
                )
            },
            crate::commands::SprintCommand::SprintCancel => {
                let ctx = match active_sprint_context {
                    Some(c) => c,
                    None => {
                        proof {
                            assert(false);
                        }
                        return Err(crate::commands::SprintCommandError::MissingActiveContext);
                    },
                };
                let days = match ctx.total_days_elapsed(today) {
                    Some(d) => d,
                    None => {
                        return Err(crate::commands::SprintCommandError::InvalidDate);
                    },
                };
                Ok(cancel_message(ctx.name.as_str(), days, ticket_summary, trello_board))
            },
            crate::commands::SprintCommand::SprintEnd | crate::commands::SprintCommand::SprintReview
            => {
                let ctx = match active_sprint_context {
                    Some(c) => c,
                    None => {
                        proof {
                            assert(false);
                        }
                        return Err(crate::commands::SprintCommandError::MissingActiveContext);
                    },
                };
                let days = match ctx.total_days_elapsed(today) {
                    Some(d) => d,
                    None => {
                        return Err(crate::commands::SprintCommandError::InvalidDate);
                    },
                };
                let is_end = matches!(self, crate::commands::SprintCommand::SprintEnd);
                Ok(
                    review_message(
                        ctx,
                        is_end,
                        days,
                        ticket_summary,
                        cumulative_sprint_contexts,
                        trello_board,
                    ),
                )
            },
            crate::commands::SprintCommand::DailySummary => {
                let ctx = match active_sprint_context {
                    Some(c) => c,
                    None => {
                        proof {
                            assert(false);
                        }
                        return Err(crate::commands::SprintCommandError::MissingActiveContext);
                    },
                };
                let indicator = match ctx.remaining_time_indicator(today) {
                    Some(sym) => sym,
                    None => {
                        return Err(crate::commands::SprintCommandError::InvalidDate);
                    },
                };
                let days_left = match ctx.days_until_end(today) {
                    Some(d) => d,
                    None => {
                        return Err(crate::commands::SprintCommandError::InvalidDate);
                    },
                };
                Ok(daily_message(indicator, today, days_left, ticket_summary, trello_board))
            },
        }
    }
}

} // verus!
