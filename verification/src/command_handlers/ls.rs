//! The `ls` command: lists every stored key, one per reply line.

use vstd::prelude::*;
use crate::bot::BotContext;
use crate::command_handlers::CommandHandlerResult;
use crate::interaction::{
    is_message_callback,
    InteractionCallback,
    InteractionCallbackMessage,
    InteractionData,
};
use crate::interaction_pipeline::InteractionError;

verus! {

pub struct LsCommandHandler;

/// The argument shape `ls` accepts: no options at all, given either as an
/// absent list or as an empty one.
pub open spec fn ls_args(data: InteractionData) -> Option<()> {
    match data.options {
        None => Some(()),
        Some(opts) => if opts@.len() == 0 {
            Some(())
        } else {
            None
        },
    }
}

/// The reply text for a key listing: one line per key, each prefixed with a
/// marker, joined by newlines.
pub open spec fn ls_lines(keys: Seq<Seq<char>>) -> Seq<char>
    decreases keys.len(),
{
    if keys.len() == 0 {
        Seq::empty()
    } else if keys.len() == 1 {
        "| "@ + keys[0]
    } else {
        ls_lines(keys.drop_last()) + "\n"@ + "| "@ + keys.last()
    }
}

impl LsCommandHandler {
    /// The command name this handler answers to.
    pub fn name() -> (r: &'static str)
        ensures
            r@ == "ls"@,
    {
        "ls"
    }

    /// Accepts exactly the option lists [`ls_args`] describes.
    pub fn parse_args(interaction_data: &InteractionData) -> (r: Option<()>)
        ensures
            r == ls_args(*interaction_data),
    {
        match &interaction_data.options {
            None => Some(()),
            Some(opts) => {
                if opts.len() == 0 {
                    Some(())
                } else {
                    None
                }
            },
        }
    }

    /// Lists the bucket's keys: the reply holds every current key exactly
    /// once, one per line, in the store's listing order. An engine failure
    /// is answered with `Unexpected`. The store is never changed.
    pub fn handle(&self, _args: (), context: &mut BotContext) -> (r: CommandHandlerResult)
        ensures
            final(context).store.contents() == old(context).store.contents(),
            match r {
                Ok(cb) => ({
                    let keys = crate::store::engine_key_order(old(context).store.contents());
                    &&& keys.to_set() == old(context).store.contents().dom()
                    &&& keys.no_duplicates()
                    &&& is_message_callback(cb, ls_lines(keys))
                }),
                Err(e) => e == InteractionError::Unexpected,
            },
    {
        let entries = match context.store.list() {
            Ok(entries) => entries,
            Err(e) => {
                return Err(InteractionError::from(e));
            },
        };
        let ghost keys = entries@.map_values(|s: String| s@);
        let mut text = String::new();
        let mut i: usize = 0;
        proof {
            assert(keys.take(0int) =~= Seq::<Seq<char>>::empty());
        }
        while i < entries.len()
            invariant
                0 <= i <= entries@.len(),
                keys == entries@.map_values(|s: String| s@),
                text@ == ls_lines(keys.take(i as int)),
            decreases entries@.len() - i,
        {
            if i > 0 {
                text.append("\n");
            }
            text.append("| ");
            text.append(entries[i].as_str());
            proof {
                assert(keys.take(i + 1int).drop_last() =~= keys.take(i as int));
                assert(keys.take(i + 1int).last() == keys[i as int]);
            }
            i = i + 1;
        }
        proof {
            assert(keys.take(entries@.len() as int) =~= keys);
        }
        let message = InteractionCallbackMessage { content: Some(text) };
        let callback = InteractionCallback::channel_message_with_source(message);
        Ok(callback)
    }
}

} // verus!
