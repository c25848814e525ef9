use vstd::prelude::*;

use crate::text::{contains_chars, lemma_contains_at};

verus! {

/// The instruction that asks the model for an English translation.
pub const ZH2EN_INSTRUCTION: &'static str = "将以下文本翻译为英语，注意只需要输出翻译后的结果，不要额外解释：\n\n";

/// The instruction that asks the model for a Chinese translation.
pub const EN2ZH_INSTRUCTION: &'static str = "将以下文本翻译为中文，注意只需要输出翻译后的结果，不要额外解释：\n\n";

/// Builds the user message for a Chinese-to-English request.
pub fn zh2en_content(text: &str) -> (prompt: String)
    ensures
        prompt@ == ZH2EN_INSTRUCTION@ + text@,
{
    let mut prompt = String::from_str(ZH2EN_INSTRUCTION);
    prompt.append(text);
    prompt
}

/// Builds the user message for an English-to-Chinese request.
pub fn en2zh_content(text: &str) -> (prompt: String)
    ensures
        prompt@ == EN2ZH_INSTRUCTION@ + text@,
{
    let mut prompt = String::from_str(EN2ZH_INSTRUCTION);
    prompt.append(text);
    prompt
}

} // verus!

verus! {

/// A Chinese-to-English prompt names English ("英语") as the target language,
/// tells the model to output only the translation, and carries the source text.
pub proof fn lemma_zh2en_prompt_shape(text: Seq<char>)
    ensures
        contains_chars(ZH2EN_INSTRUCTION@ + text, "英语"@),
        contains_chars(ZH2EN_INSTRUCTION@ + text, "只需要输出翻译后的结果"@),
        contains_chars(ZH2EN_INSTRUCTION@ + text, text),
{
    reveal_strlit("将以下文本翻译为英语，注意只需要输出翻译后的结果，不要额外解释：\n\n");
    reveal_strlit("英语");
    reveal_strlit("只需要输出翻译后的结果");
    let p = ZH2EN_INSTRUCTION@ + text;
    assert(p.subrange(8, 10) =~= "英语"@);
    lemma_contains_at(p, "英语"@, 8);
    assert(p.subrange(13, 24) =~= "只需要输出翻译后的结果"@);
    lemma_contains_at(p, "只需要输出翻译后的结果"@, 13);
    let n = ZH2EN_INSTRUCTION@.len() as int;
    assert(p.subrange(n, n + text.len()) =~= text);
    lemma_contains_at(p, text, n);
}

/// An English-to-Chinese prompt names Chinese ("中文") as the target language,
/// tells the model to output only the translation, and carries the source text.
pub proof fn lemma_en2zh_prompt_shape(text: Seq<char>)
    ensures
        contains_chars(EN2ZH_INSTRUCTION@ + text, "中文"@),
        contains_chars(EN2ZH_INSTRUCTION@ + text, "只需要输出翻译后的结果"@),
        contains_chars(EN2ZH_INSTRUCTION@ + text, text),
{
    reveal_strlit("将以下文本翻译为中文，注意只需要输出翻译后的结果，不要额外解释：\n\n");
    reveal_strlit("中文");
    reveal_strlit("只需要输出翻译后的结果");
    let p = EN2ZH_INSTRUCTION@ + text;
    assert(p.subrange(8, 10) =~= "中文"@);
    lemma_contains_at(p, "中文"@, 8);
    assert(p.subrange(13, 24) =~= "只需要输出翻译后的结果"@);
    lemma_contains_at(p, "只需要输出翻译后的结果"@, 13);
    let n = EN2ZH_INSTRUCTION@.len() as int;
    assert(p.subrange(n, n + text.len()) =~= text);
    lemma_contains_at(p, text, n);
}

/// A Chinese-to-English prompt mentions Chinese ("中文") only where the source
/// text itself does: the instruction never names Chinese.
pub proof fn lemma_zh2en_prompt_never_names_chinese(text: Seq<char>)
    ensures
        contains_chars(ZH2EN_INSTRUCTION@ + text, "中文"@) ==> contains_chars(text, "中文"@),
{
    reveal_strlit("将以下文本翻译为英语，注意只需要输出翻译后的结果，不要额外解释：\n\n");
    reveal_strlit("中文");
    let ins = ZH2EN_INSTRUCTION@;
    let p = ins + text;
    let needle = "中文"@;
    let n = ins.len() as int;
    assert forall|k: int| 0 <= k < n implies ins[k] != '中' by {
        assert(ins[k] != '中');
    }
    if contains_chars(p, needle) {
        let i = choose|i: int|
            0 <= i && i + needle.len() <= p.len() && #[trigger] p.subrange(i, i + needle.len())
                == needle;
        assert(p.subrange(i, i + 2)[0] == '中');
        assert(p[i] == '中');
        assert(i >= n);
        assert(text.subrange(i - n, i - n + 2) =~= p.subrange(i, i + 2));
        lemma_contains_at(text, needle, i - n);
    }
}

/// An English-to-Chinese prompt mentions English ("英语") only where the
/// source text itself does: the instruction never names English.
pub proof fn lemma_en2zh_prompt_never_names_english(text: Seq<char>)
    ensures
        contains_chars(EN2ZH_INSTRUCTION@ + text, "英语"@) ==> contains_chars(text, "英语"@),
{
    reveal_strlit("将以下文本翻译为中文，注意只需要输出翻译后的结果，不要额外解释：\n\n");
    reveal_strlit("英语");
    let ins = EN2ZH_INSTRUCTION@;
    let p = ins + text;
    let needle = "英语"@;
    let n = ins.len() as int;
    assert forall|k: int| 0 <= k < n implies ins[k] != '英' by {
        assert(ins[k] != '英');
    }
    if contains_chars(p, needle) {
        let i = choose|i: int|
            0 <= i && i + needle.len() <= p.len() && #[trigger] p.subrange(i, i + needle.len())
                == needle;
        assert(p.subrange(i, i + 2)[0] == '英');
        assert(p[i] == '英');
        assert(i >= n);
        assert(text.subrange(i - n, i - n + 2) =~= p.subrange(i, i + 2));
        lemma_contains_at(text, needle, i - n);
    }
}

/// The two instructions differ only in the target language: "英语" in one,
/// "中文" in the other, at the same place.
pub proof fn lemma_prompts_differ_only_in_target_language()
    ensures
        ZH2EN_INSTRUCTION@.len() == EN2ZH_INSTRUCTION@.len(),
        ZH2EN_INSTRUCTION@.subrange(8, 10) == "英语"@,
        EN2ZH_INSTRUCTION@.subrange(8, 10) == "中文"@,
        forall|i: int|
            0 <= i < ZH2EN_INSTRUCTION@.len() && !(8 <= i < 10) ==> ZH2EN_INSTRUCTION@[i]
                == EN2ZH_INSTRUCTION@[i],
{
    reveal_strlit("将以下文本翻译为英语，注意只需要输出翻译后的结果，不要额外解释：\n\n");
    reveal_strlit("将以下文本翻译为中文，注意只需要输出翻译后的结果，不要额外解释：\n\n");
    reveal_strlit("英语");
    reveal_strlit("中文");
    assert(ZH2EN_INSTRUCTION@.subrange(8, 10) =~= "英语"@);
    assert(EN2ZH_INSTRUCTION@.subrange(8, 10) =~= "中文"@);
}

} // verus!
