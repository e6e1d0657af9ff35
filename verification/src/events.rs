//! The command parser: turns an inbound trigger, manual or scheduled, into a
//! typed sprint command, validated against the presence of an active sprint
//! and the name-reuse history. A pure function of its arguments; it performs
//! no I/O.

use vstd::prelude::*;

use crate::commands::{SprintCommand, SprintCommandError};
use crate::dates::{day_number_long_of, day_number_of, parse_day_number_long};
use crate::records::{ActiveSprintContext, CumulativeSprintContexts};
use crate::strutil::str_eq;

verus! {

/// An inbound trigger: a chat command with its arguments, or the scheduler's
/// tick.
#[derive(Debug)]
pub enum SprintEvents {
    MessageTrigger {
        command: String,
        args: Vec<String>,
        channel_id: String,
        response_url: Option<String>,
    },
    ScheduledTrigger,
}

/// Whether the command text asks for a kickoff, previewed or confirmed.
pub open spec fn is_kickoff_text(c: Seq<char>) -> bool {
    c == "/sprint-kickoff"@ || c == "/sprint-kickoff-confirm"@
}

/// Whether the command text is one of the three commands that need a running
/// sprint.
pub open spec fn is_running_sprint_text(c: Seq<char>) -> bool {
    c == "/sprint-cancel"@ || c == "/sprint-end"@ || c == "/sprint-check-in"@
}

impl SprintEvents {
    /// The transition table, keyed by the presence of an active sprint and
    /// the trigger.
    ///
    /// With no active sprint, a kickoff or preview is accepted when its
    /// payload holds an end date and a name, the date parses, and the name
    /// was never used before; the three running-sprint commands and the
    /// scheduled tick are rejected. With an active sprint, kickoff and
    /// preview are rejected, the running-sprint commands pass through, and
    /// the scheduled tick becomes the review on the last day and the daily
    /// summary before it. Unknown command texts are rejected either way, and
    /// a date that does not parse is rejected rather than taken on trust.
    pub fn try_into_sprint_command(
        &self,
        active_sprint_context: &Option<ActiveSprintContext>,
        cumulative_sprint_contexts: &CumulativeSprintContexts,
        today: &str,
    ) -> (r: Result<SprintCommand, SprintCommandError>)
        ensures
            *self is ScheduledTrigger ==> {
                &&& active_sprint_context is None ==> r == Result::<
                    SprintCommand,
                    SprintCommandError,
                >::Err(SprintCommandError::NoSprintInProgress)
                &&& active_sprint_context matches Some(ctx) ==> {
                    &&& (day_number_of(today@) is None || day_number_of(ctx.end_date@) is None)
                        ==> r == Result::<SprintCommand, SprintCommandError>::Err(
                        SprintCommandError::InvalidDate,
                    )
                    &&& (day_number_of(today@) is Some && day_number_of(ctx.end_date@) is Some)
                        ==> {
                        let days_left = day_number_of(ctx.end_date@).unwrap() - day_number_of(
                            today@,
                        ).unwrap();
                        &&& days_left <= 0 ==> r == Result::<SprintCommand, SprintCommandError>::Ok(
                            SprintCommand::SprintReview,
                        )
                        &&& days_left > 0 ==> r == Result::<SprintCommand, SprintCommandError>::Ok(
                            SprintCommand::DailySummary,
                        )
                    }
                }
            },
            *self matches SprintEvents::MessageTrigger { command, args, channel_id, .. } ==> {
                &&& active_sprint_context matches Some(ctx) ==> {
                    &&& is_kickoff_text(command@) ==> (r matches Err(
                        SprintCommandError::SprintAlreadyInProgress { sprint_name },
                    ) && sprint_name@ == ctx.name@)
                    &&& command@ == "/sprint-cancel"@ ==> r == Result::<
                        SprintCommand,
                        SprintCommandError,
                    >::Ok(SprintCommand::SprintCancel)
                    &&& command@ == "/sprint-end"@ ==> r == Result::<
                        SprintCommand,
                        SprintCommandError,
                    >::Ok(SprintCommand::SprintEnd)
                    &&& command@ == "/sprint-check-in"@ ==> r == Result::<
                        SprintCommand,
                        SprintCommandError,
                    >::Ok(SprintCommand::SprintCheckIn)
                    &&& (!is_kickoff_text(command@) && !is_running_sprint_text(command@)) ==> r
                        == Result::<SprintCommand, SprintCommandError>::Err(
                        SprintCommandError::InvalidCommand,
                    )
                }
                &&& active_sprint_context is None ==> {
                    &&& is_running_sprint_text(command@) ==> r == Result::<
                        SprintCommand,
                        SprintCommandError,
                    >::Err(SprintCommandError::NoSprintInProgress)
                    &&& (!is_kickoff_text(command@) && !is_running_sprint_text(command@)) ==> r
                        == Result::<SprintCommand, SprintCommandError>::Err(
                        SprintCommandError::InvalidCommand,
                    )
                    &&& is_kickoff_text(command@) ==> {
                        &&& args@.len() < 2 ==> r == Result::<
                            SprintCommand,
                            SprintCommandError,
                        >::Err(SprintCommandError::NotEnoughArguments)
                        &&& args@.len() >= 2 ==> {
                            let used = CumulativeSprintContexts::spec_count_since(
                                cumulative_sprint_contexts.history@,
                                args@[1]@,
                            ) > 0;
                            &&& day_number_long_of(args@[0]@) is None ==> r == Result::<
                                SprintCommand,
                                SprintCommandError,
                            >::Err(SprintCommandError::InvalidDate)
                            &&& (day_number_long_of(args@[0]@) is Some && used) ==> (r matches Err(
                                SprintCommandError::SprintNameAlreadyUsed { sprint_name },
                            ) && sprint_name@ == args@[1]@)
                            &&& (day_number_long_of(args@[0]@) is Some && !used) ==> {
                                &&& command@ == "/sprint-kickoff-confirm"@ ==> (r matches Ok(
                                    SprintCommand::SprintKickoff {
                                        sprint_name,
                                        end_date,
                                        channel_id: ch,
                                    },
                                ) && sprint_name@ == args@[1]@ && end_date@ == args@[0]@ && ch@
                                    == channel_id@)
                                &&& command@ == "/sprint-kickoff"@ ==> (r matches Ok(
                                    SprintCommand::SprintPreview {
                                        sprint_name,
                                        end_date,
                                        channel_id: ch,
                                    },
                                ) && sprint_name@ == args@[1]@ && end_date@ == args@[0]@ && ch@
                                    == channel_id@)
                            }
                        }
                    }
                }
            },
    {
        proof {
            reveal_strlit("/sprint-kickoff");
            reveal_strlit("/sprint-kickoff-confirm");
            reveal_strlit("/sprint-cancel");
            reveal_strlit("/sprint-end");
            reveal_strlit("/sprint-check-in");
            assert("/sprint-kickoff"@.len() == 15);
            assert("/sprint-kickoff-confirm"@.len() == 23);
            assert("/sprint-cancel"@.len() == 14);
            assert("/sprint-end"@.len() == 11);
            assert("/sprint-check-in"@.len() == 16);
        }
        match active_sprint_context {
            Some(active_sprint_record) => {
                match self {
                    SprintEvents::MessageTrigger { command, .. } => {
                        if str_eq(command.as_str(), "/sprint-kickoff") || str_eq(
                            command.as_str(),
                            "/sprint-kickoff-confirm",
                        ) {
                            Err(
                                SprintCommandError::SprintAlreadyInProgress {
                                    sprint_name: active_sprint_record.name.clone(),
                                },
                            )
                        } else if str_eq(command.as_str(), "/sprint-cancel") {
                            Ok(SprintCommand::SprintCancel)
                        } else if str_eq(command.as_str(), "/sprint-end") {
                            Ok(SprintCommand::SprintEnd)
                        } else if str_eq(command.as_str(), "/sprint-check-in") {
                            Ok(SprintCommand::SprintCheckIn)
                        } else {
                            Err(SprintCommandError::InvalidCommand)
                        }
                    },
                    SprintEvents::ScheduledTrigger => {
                        match active_sprint_record.days_until_end(today) {
                            Some(days_left) => {
                                if days_left <= 0 {
                                    Ok(SprintCommand::SprintReview)
                                } else {
                                    Ok(SprintCommand::DailySummary)
                                }
                            },
                            None => Err(SprintCommandError::InvalidDate),
                        }
                    },
                }
            },
            None => {
                match self {
                    SprintEvents::MessageTrigger { command, args, channel_id, .. } => {
                        if str_eq(command.as_str(), "/sprint-cancel") || str_eq(
                            command.as_str(),
                            "/sprint-end",
                        ) || str_eq(command.as_str(), "/sprint-check-in") {
                            Err(SprintCommandError::NoSprintInProgress)
                        } else if str_eq(command.as_str(), "/sprint-kickoff") || str_eq(
                            command.as_str(),
                            "/sprint-kickoff-confirm",
                        ) {
                            if args.len() < 2 {
                                return Err(SprintCommandError::NotEnoughArguments);
                            }
                            if parse_day_number_long(args[0].as_str()).is_none() {
                                return Err(SprintCommandError::InvalidDate);
                            }
                            if cumulative_sprint_contexts.was_sprint_name_used(args[1].as_str()) {
                                Err(
                                    SprintCommandError::SprintNameAlreadyUsed {
                                        sprint_name: args[1].clone(),
                                    },
                                )
                            } else if str_eq(command.as_str(), "/sprint-kickoff-confirm") {
                                Ok(
                                    SprintCommand::SprintKickoff {
                                        end_date: args[0].clone(),
                                        sprint_name: args[1].clone(),
                                        channel_id: channel_id.clone(),
                                    },
                                )
                            } else {
                                Ok(
                                    SprintCommand::SprintPreview {
                                        end_date: args[0].clone(),
                                        sprint_name: args[1].clone(),
                                        channel_id: channel_id.clone(),
                                    },
                                )
                            }
                        } else {
                            Err(SprintCommandError::InvalidCommand)
                        }
                    },
                    SprintEvents::ScheduledTrigger => Err(SprintCommandError::NoSprintInProgress),
                }
            },
        }
    }
}

} // verus!
