//! Last check before a command reaches the operating system.
use vstd::prelude::*;

use crate::command::OsCommand;
use crate::numeric::{decimal_text, hundredths, push_decimal, to_hundredths};
use crate::temporal_filter::elapsed_ms;

verus! {

/// Limits of the safety guard. Confidences are in thousandths, intervals in ms.
#[derive(Clone, Copy, Debug)]
pub struct SafetyGuardConfig {
    pub min_confidence_pm: u32,
    pub min_command_interval_ms: u64,
    pub critical_min_confidence_pm: u32,
}

impl Default for SafetyGuardConfig {
    fn default() -> (r: Self)
        ensures
            r.min_confidence_pm == 360,
            r.min_command_interval_ms == 280,
            r.critical_min_confidence_pm == 780,
    {
        SafetyGuardConfig {
            min_confidence_pm: 360,
            min_command_interval_ms: 280,
            critical_min_confidence_pm: 780,
        }
    }
}

/// State the guard keeps between commands.
#[derive(Clone, Copy, Debug)]
pub struct SafetyContext {
    pub last_execution_ms: Option<u64>,
    pub shutdown_confirmation_pending: bool,
}

impl Default for SafetyContext {
    fn default() -> (r: Self)
        ensures
            r.last_execution_ms.is_none(),
            !r.shutdown_confirmation_pending,
    {
        SafetyContext { last_execution_ms: None, shutdown_confirmation_pending: false }
    }
}

/// Verdict of the guard.
#[derive(Clone, Debug)]
pub struct SafetyDecision {
    pub allow: bool,
    pub reason: String,
    pub needs_extra_confirmation: bool,
}

/// A confidence in thousandths written with two decimals (`0.36` for 360), rounded
/// to the hundredth as `hundredths` says.
pub open spec fn confidence_text(pm: nat) -> Seq<char> {
    let h = hundredths(pm);
    let frac = h % 100;
    decimal_text(h / 100) + "."@ + (if frac < 10 {
        "0"@
    } else {
        Seq::empty()
    }) + decimal_text(frac)
}

/// The verdict of the guard and the context after it: allowed, reason, whether
/// an extra confirmation is needed, and the new context.
pub open spec fn judge(
    c: SafetyGuardConfig,
    command: OsCommand,
    confidence_pm: u32,
    now: u64,
    ctx: SafetyContext,
) -> (bool, Seq<char>, bool, SafetyContext) {
    if command == OsCommand::NoAction {
        (false, "Пустая команда."@, false, ctx)
    } else if confidence_pm < c.min_confidence_pm {
        (
            false,
            "Низкая уверенность распознавания ("@ + confidence_text(confidence_pm as nat) + ")."@,
            false,
            ctx,
        )
    } else if command == OsCommand::ShutdownComputer && confidence_pm < c.critical_min_confidence_pm {
        (false, "Критичная команда отклонена из-за недостаточной уверенности."@, true, ctx)
    } else if command == OsCommand::ShutdownComputer && !ctx.shutdown_confirmation_pending {
        (
            false,
            "Требуется дополнительное подтверждение выключения."@,
            true,
            SafetyContext { shutdown_confirmation_pending: true, ..ctx },
        )
    } else if ctx.last_execution_ms matches Some(prev) && elapsed_ms(now, prev)
        < c.min_command_interval_ms {
        (false, "Антидребезг: команды слишком частые."@, false, ctx)
    } else {
        (true, "Команда разрешена."@, false, SafetyContext { last_execution_ms: Some(now), ..ctx })
    }
}

/// Rejects empty, uncertain, too frequent and unconfirmed critical commands.
pub struct SafetyGuard {
    config: SafetyGuardConfig,
}

impl SafetyGuard {
    /// The limits in use.
    pub closed spec fn config(&self) -> SafetyGuardConfig {
        self.config
    }

    /// A guard with the given limits.
    pub fn new(config: SafetyGuardConfig) -> (r: SafetyGuard)
        ensures
            r.config() == config,
    {
        SafetyGuard { config }
    }

    /// Decides whether `command`, recognised with `confidence_pm` at `now_ms`, may run.
    pub fn evaluate(
        &self,
        command: OsCommand,
        confidence_pm: u32,
        now_ms: u64,
        context: &mut SafetyContext,
    ) -> (r: SafetyDecision)
        ensures
            ({
                let j = judge(self.config(), command, confidence_pm, now_ms, *old(context));
                &&& r.allow == j.0
                &&& r.reason@ == j.1
                &&& r.needs_extra_confirmation == j.2
                &&& *final(context) == j.3
            }),
    {
        if command == OsCommand::NoAction {
            return SafetyDecision {
                allow: false,
                reason: String::from_str("Пустая команда."),
                needs_extra_confirmation: false,
            };
        }
        if confidence_pm < self.config.min_confidence_pm {
            let mut reason = String::from_str("Низкая уверенность распознавания (");
            push_confidence(&mut reason, confidence_pm);
            reason.append(").");
            return SafetyDecision { allow: false, reason, needs_extra_confirmation: false };
        }
        if command == OsCommand::ShutdownComputer {
            if confidence_pm < self.config.critical_min_confidence_pm {
                return SafetyDecision {
                    allow: false,
                    reason: String::from_str(
                        "Критичная команда отклонена из-за недостаточной уверенности.",
                    ),
                    needs_extra_confirmation: true,
                };
            }
            if !context.shutdown_confirmation_pending {
                context.shutdown_confirmation_pending = true;
                return SafetyDecision {
                    allow: false,
                    reason: String::from_str("Требуется дополнительное подтверждение выключения."),
                    needs_extra_confirmation: true,
                };
            }
        }
        if let Some(prev) = context.last_execution_ms {
            let elapsed: u64 = if now_ms >= prev {
                now_ms - prev
            } else {
                0
            };
            if elapsed < self.config.min_command_interval_ms {
                return SafetyDecision {
                    allow: false,
                    reason: String::from_str("Антидребезг: команды слишком частые."),
                    needs_extra_confirmation: false,
                };
            }
        }
        context.last_execution_ms = Some(now_ms);
        SafetyDecision {
            allow: true,
            reason: String::from_str("Команда разрешена."),
            needs_extra_confirmation: false,
        }
    }
}

/// Appends a confidence in thousandths with two decimals.
fn push_confidence(s: &mut String, pm: u32)
    ensures
        final(s)@ == old(s)@ + confidence_text(pm as nat),
{
    let h: u64 = to_hundredths(pm as u64);
    let frac = h % 100;
    push_decimal(s, h / 100);
    s.append(".");
    if frac < 10 {
        s.append("0");
    }
    push_decimal(s, frac);
    proof {
        let zero_pad = if frac < 10 {
            "0"@
        } else {
            Seq::<char>::empty()
        };
        assert(final(s)@ == old(s)@ + decimal_text((h / 100) as nat) + "."@ + zero_pad + decimal_text(frac as nat));
    }
}

/// A command is allowed only if it is not `NoAction`, its confidence reaches the
/// minimum, and the minimal interval since the last allowed command has passed; an
/// allowed shutdown also needs the critical confidence and a pending confirmation.
/// An allowed command records its time as the last execution.
pub proof fn lemma_allowed_command_conditions(
    c: SafetyGuardConfig,
    command: OsCommand,
    confidence_pm: u32,
    now: u64,
    ctx: SafetyContext,
)
    requires
        judge(c, command, confidence_pm, now, ctx).0,
    ensures
        command != OsCommand::NoAction,
        confidence_pm >= c.min_confidence_pm,
        command == OsCommand::ShutdownComputer ==> confidence_pm >= c.critical_min_confidence_pm
            && ctx.shutdown_confirmation_pending,
        ctx.last_execution_ms matches Some(prev) ==> elapsed_ms(now, prev) >= c.min_command_interval_ms,
        judge(c, command, confidence_pm, now, ctx).3.last_execution_ms == Some(now),
{
}

/// A shutdown needs two confident requests: on a context without a pending
/// confirmation the first one is refused and leaves the confirmation pending, so a
/// second one (once the interval allows it) is accepted.
pub proof fn lemma_shutdown_needs_two_requests(
    c: SafetyGuardConfig,
    confidence_pm: u32,
    now: u64,
    later: u64,
    ctx: SafetyContext,
)
    requires
        !ctx.shutdown_confirmation_pending,
        confidence_pm >= c.min_confidence_pm,
        confidence_pm >= c.critical_min_confidence_pm,
        ctx.last_execution_ms matches Some(prev) ==> elapsed_ms(later, prev) >= c.min_command_interval_ms,
    ensures
        !judge(c, OsCommand::ShutdownComputer, confidence_pm, now, ctx).0,
        judge(c, OsCommand::ShutdownComputer, confidence_pm, now, ctx).3.shutdown_confirmation_pending,
        judge(
            c,
            OsCommand::ShutdownComputer,
            confidence_pm,
            later,
            judge(c, OsCommand::ShutdownComputer, confidence_pm, now, ctx).3,
        ).0,
{
}

/// The guard's verdict over all inputs: a command is allowed exactly when it is not
/// `NoAction`, its confidence reaches the minimum, the minimal interval since the last
/// allowed command has passed (or none was allowed yet) and, for a shutdown only, the
/// confidence also reaches the critical level and a confirmation is pending. An
/// allowed command records `now` as the last execution and keeps the rest of the
/// context; only a shutdown is ever answered with a need for extra confirmation.
pub proof fn lemma_guard_verdict(
    c: SafetyGuardConfig,
    command: OsCommand,
    confidence_pm: u32,
    now: u64,
    ctx: SafetyContext,
)
    ensures
        judge(c, command, confidence_pm, now, ctx).0 <==> ({
            &&& command != OsCommand::NoAction
            &&& confidence_pm >= c.min_confidence_pm
            &&& command == OsCommand::ShutdownComputer ==> confidence_pm >= c.critical_min_confidence_pm
                && ctx.shutdown_confirmation_pending
            &&& ctx.last_execution_ms matches Some(prev) ==> c.min_command_interval_ms == 0 || now
                >= prev + c.min_command_interval_ms
        }),
        judge(c, command, confidence_pm, now, ctx).0 ==> ({
            &&& judge(c, command, confidence_pm, now, ctx).1 == "Команда разрешена."@
            &&& !judge(c, command, confidence_pm, now, ctx).2
            &&& judge(c, command, confidence_pm, now, ctx).3.last_execution_ms == Some(now)
            &&& judge(c, command, confidence_pm, now, ctx).3.shutdown_confirmation_pending
                == ctx.shutdown_confirmation_pending
        }),
        judge(c, command, confidence_pm, now, ctx).2 ==> command == OsCommand::ShutdownComputer,
{
}

} // verus!
