//! What the load dialog says about a checkpoint that has no generation settings: its task and
//! the contract that the task declares.
use vstd::prelude::*;

use crate::dialogs::LoadDialog;
use crate::records::{EmbeddingCapabilities, ModelTaskCapabilities, RerankCapabilities};
use crate::text::{
    decimal, decimal_chars, equals, join, join_all, joined, pad_right, padded, replace_char,
    replaced, views,
};

verus! {

/// The prompt presets of an embedding checkpoint: their names, then the default one.
pub open spec fn prompts_chars(e: EmbeddingCapabilities) -> Seq<char> {
    if e.prompt_names@.len() == 0 {
        "none"@
    } else {
        joined(views(e.prompt_names@), ", "@) + match e.default_prompt {
            Some(d) => " · default "@ + d@,
            None => Seq::<char>::empty(),
        }
    }
}

/// The output line of an embedding checkpoint.
pub open spec fn output_line(e: EmbeddingCapabilities) -> Seq<char> {
    "output              "@ + decimal_chars(e.native_dimensions as nat) + " dimensions · "@
        + replaced(e.pooling@, '_', ' ') + " · "@ + (if e.normalized {
        "normalized"@
    } else {
        "not normalized"@
    }) + " · prompt "@ + (if e.includes_prompt {
        "included"@
    } else {
        "excluded"@
    })
}

/// The classifier line of a reranking checkpoint.
pub open spec fn classifier_line(r: RerankCapabilities) -> Seq<char> {
    "classifier          "@ + decimal_chars(r.labels as nat) + " "@ + (if r.labels == 1 {
        "label"@
    } else {
        "labels"@
    }) + " · "@ + r.pooling@ + " pooling · "@ + (if r.raw_scores {
        "raw logits available"@
    } else {
        "relevance scores"@
    })
}

/// The lines that describe a task contract.
pub open spec fn contract_lines(task: Seq<char>, c: ModelTaskCapabilities) -> Seq<Seq<char>> {
    let limit = if task == "rerank"@ { "maximum pair"@ } else { "maximum input"@ };
    let head = seq![
        "task "@ + padded(task, 14) + " detected from checkpoint"@,
        padded(limit, 19) + " "@ + decimal_chars(c.max_input_tokens as nat) + " tokens"@,
    ];
    let embedding = match c.embedding {
        Some(e) => seq![output_line(e), "prompt presets      "@ + prompts_chars(e)],
        None => Seq::<Seq<char>>::empty(),
    };
    let rerank = match c.rerank {
        Some(r) => seq![classifier_line(r)],
        None => Seq::<Seq<char>>::empty(),
    };
    head + embedding + rerank + seq!["load settings       none required"@]
}

/// The description of the dialog's task, one line after another.
pub open spec fn summary_chars(dialog: LoadDialog) -> Seq<char> {
    match dialog.capabilities {
        None => "task "@ + padded(dialog.task@, 14) + " no editable load settings"@,
        Some(c) => joined(contract_lines(dialog.task@, c), "\n"@),
    }
}

/// The prompt presets of an embedding checkpoint.
pub fn prompts(capabilities: &EmbeddingCapabilities) -> (text: String)
    ensures
        text@ == prompts_chars(*capabilities),
{
    if capabilities.prompt_names.len() == 0 {
        return "none".to_owned();
    }
    let mut text = join_all(&capabilities.prompt_names, ", ");
    match &capabilities.default_prompt {
        Some(default) => {
            text.append(" · default ");
            text.append(default.as_str());
        },
        None => {
            proof {
                assert(text@ + Seq::<char>::empty() =~= text@);
            }
        },
    }
    text
}

/// The output line of an embedding checkpoint.
fn output(e: &EmbeddingCapabilities) -> (line: String)
    ensures
        line@ == output_line(*e),
{
    let mut line = join("output              ", decimal(e.native_dimensions).as_str());
    line.append(" dimensions · ");
    line.append(replace_char(e.pooling.as_str(), '_', ' ').as_str());
    line.append(" · ");
    line.append(if e.normalized { "normalized" } else { "not normalized" });
    line.append(" · prompt ");
    line.append(if e.includes_prompt { "included" } else { "excluded" });
    line
}

/// The classifier line of a reranking checkpoint.
fn classifier(r: &RerankCapabilities) -> (line: String)
    ensures
        line@ == classifier_line(*r),
{
    let mut line = join("classifier          ", decimal(r.labels).as_str());
    line.append(" ");
    line.append(if r.labels == 1 { "label" } else { "labels" });
    line.append(" · ");
    line.append(r.pooling.as_str());
    line.append(" pooling · ");
    line.append(if r.raw_scores { "raw logits available" } else { "relevance scores" });
    line
}

/// The description of the dialog's task: for a checkpoint that declares its contract, the
/// task, its input limit, what an embedding outputs and which prompts it knows, what a
/// reranker classifies, and that no load settings are needed.
pub fn summary(dialog: &LoadDialog) -> (text: String)
    ensures
        text@ == summary_chars(*dialog),
{
    let capabilities = match &dialog.capabilities {
        Some(c) => c,
        None => {
            let mut text = join("task ", pad_right(dialog.task.as_str(), 14).as_str());
            text.append(" no editable load settings");
            return text;
        },
    };
    let ghost task = dialog.task@;
    let mut lines: Vec<String> = Vec::new();
    let mut first = join("task ", pad_right(dialog.task.as_str(), 14).as_str());
    first.append(" detected from checkpoint");
    lines.push(first);
    let limit = if equals(dialog.task.as_str(), "rerank") { "maximum pair" } else { "maximum input" };
    let mut second = pad_right(limit, 19);
    second.append(" ");
    second.append(decimal(capabilities.max_input_tokens).as_str());
    second.append(" tokens");
    lines.push(second);
    match &capabilities.embedding {
        Some(e) => {
            lines.push(output(e));
            lines.push(join("prompt presets      ", prompts(e).as_str()));
        },
        None => {},
    }
    match &capabilities.rerank {
        Some(r) => lines.push(classifier(r)),
        None => {},
    }
    lines.push("load settings       none required".to_owned());
    proof {
        assert(views(lines@) =~= contract_lines(task, *capabilities));
    }
    join_all(&lines, "\n")
}

} // verus!
