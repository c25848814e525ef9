use tokimo_translate::prompt::{EN2ZH_INSTRUCTION, ZH2EN_INSTRUCTION};
use tokimo_translate::{en2zh_content, zh2en_content};

const ZH_100: &str = "人工智能技术正在深刻改变各行各业的工作方式。机器学习算法通过分析海量数据，能够自动识别复杂模式并做出精准预测。大型语言模型的出现，使自然语言处理达到了前所未有的水平，为人机交互带来了全新的可能性。";

const ZH_200: &str = "近年来，深度学习技术取得了突破性进展，尤其是在计算机视觉和自然语言处理领域。卷积神经网络能够自动提取图像特征，在图像识别、目标检测和图像分割等任务上表现出色。与此同时，基于Transformer架构的大型语言模型彻底改变了文本理解和生成领域，GPT、BERT等模型在机器翻译、文本摘要、问答系统等众多任务上达到了接近甚至超越人类的水平。这些技术的快速发展，正在推动人工智能从专用系统向通用智能方向迈进。";

const ZH_500: &str = "随着计算能力的持续提升和数据规模的不断扩大，人工智能技术正经历前所未有的快速发展阶段。深度学习模型的参数规模从最初的数百万增长到如今的数千亿，这一量变引发了质变——模型不仅在特定任务上表现优异，更展现出令人惊讶的涌现能力，如复杂推理、代码生成和跨领域知识迁移。\n\n在工业应用方面，人工智能已深度融入制造、医疗、金融、教育等各个领域。智能工厂借助机器视觉和预测性维护技术，显著提高了生产效率并降低了运营成本。医疗影像诊断系统能够在数秒内分析CT和MRI图像，辅助医生发现早期病变。金融机构利用机器学习模型进行实时风险控制和欺诈检测，每年避免数十亿元的损失。\n\n然而，人工智能的快速发展也带来了诸多挑战。模型的可解释性问题使得在高风险决策场景中的应用受到限制。训练大型模型所需的巨额能耗和碳排放引发了环保争议。算法偏见和数据隐私保护也成为监管机构和社会公众高度关注的议题。如何在推动技术创新的同时确保人工智能的安全、公平和可信，是当前学术界和产业界共同面临的重要课题。";

const EN_100: &str = "Artificial intelligence is fundamentally transforming the way industries operate. Machine learning algorithms analyze vast datasets to automatically identify complex patterns and make accurate predictions. The emergence of large language models has brought natural language processing to unprecedented levels.";

const EN_200: &str = "In recent years, deep learning has achieved remarkable breakthroughs, particularly in computer vision and natural language processing. Convolutional neural networks excel at automatically extracting image features for recognition and detection tasks. Meanwhile, Transformer-based large language models have revolutionized text understanding and generation. Models like GPT and BERT achieve near-human performance on machine translation, summarization, and question answering. These rapid advances are driving AI from narrow systems toward more general intelligence capabilities.";

const EN_500: &str = "As computational power continues to grow and data scales expand, artificial intelligence is experiencing an unprecedented period of rapid development. The parameter count of deep learning models has grown from millions to hundreds of billions, and this quantitative change has triggered qualitative leaps—models now exhibit surprising emergent capabilities such as complex reasoning, code generation, and cross-domain knowledge transfer.\n\nIn industrial applications, AI has become deeply integrated into manufacturing, healthcare, finance, and education. Smart factories leverage machine vision and predictive maintenance to significantly improve production efficiency and reduce operational costs. Medical imaging systems analyze CT and MRI scans within seconds, assisting physicians in detecting early-stage abnormalities. Financial institutions use machine learning models for real-time risk control and fraud detection, preventing billions in annual losses.\n\nHowever, the rapid advancement of AI also presents significant challenges. The lack of model interpretability limits deployment in high-stakes decision-making scenarios. The enormous energy consumption and carbon emissions required to train large models have sparked environmental controversy. Algorithmic bias and data privacy protection have also become issues of intense scrutiny from regulators and the public alike. Balancing technological innovation with the safety, fairness, and trustworthiness of AI systems remains a critical challenge for both academia and industry.";

#[test]
fn test_zh2en_prompt_contains_target_lang() {
    let p = zh2en_content("你好世界");
    assert!(p.contains("英语"), "prompt must specify target language");
    assert!(p.contains("你好世界"), "prompt must include source text");
    assert!(!p.contains("中文"), "zh→en prompt should not say 中文");
}

#[test]
fn test_en2zh_prompt_contains_target_lang() {
    let p = en2zh_content("Hello world");
    assert!(p.contains("中文"), "prompt must specify target language");
    assert!(p.contains("Hello world"), "prompt must include source text");
}

#[test]
fn test_prompt_no_extra_instructions() {
    // Prompt must tell model to output translation only
    let p = zh2en_content("test");
    assert!(
        p.contains("只需要输出翻译后的结果"),
        "prompt must suppress extra output"
    );
}

#[test]
fn test_test_texts_have_expected_lengths() {
    assert!(ZH_100.chars().count() >= 80, "ZH_100 should be ~100 chars");
    assert!(ZH_200.chars().count() >= 160, "ZH_200 should be ~200 chars");
    assert!(ZH_500.chars().count() >= 400, "ZH_500 should be ~500 chars");
    assert!(EN_100.len() >= 200, "EN_100 should be ~100 words");
    assert!(EN_200.len() >= 400, "EN_200 should be ~200 words");
    assert!(EN_500.len() >= 1000, "EN_500 should be ~500 words");
}

#[test]
fn zh2en_prompt_is_instruction_then_text() {
    let p = zh2en_content("人工智能正在改变世界。");
    assert_eq!(
        p,
        "将以下文本翻译为英语，注意只需要输出翻译后的结果，不要额外解释：\n\n人工智能正在改变世界。"
    );
    assert!(p.starts_with(ZH2EN_INSTRUCTION));
}

#[test]
fn en2zh_prompt_is_instruction_then_text() {
    let p = en2zh_content("Hello");
    assert_eq!(
        p,
        "将以下文本翻译为中文，注意只需要输出翻译后的结果，不要额外解释：\n\nHello"
    );
    assert!(p.starts_with(EN2ZH_INSTRUCTION));
}

#[test]
fn prompts_of_empty_text_are_the_bare_instructions() {
    assert_eq!(zh2en_content(""), ZH2EN_INSTRUCTION);
    assert_eq!(en2zh_content(""), EN2ZH_INSTRUCTION);
}

#[test]
fn zh2en_prompt_names_chinese_only_through_the_text() {
    assert!(!zh2en_content(ZH_100).contains("中文"));
    assert!(zh2en_content("把这句话翻成中文").contains("中文"));
}
