//! The static catalog of speech-recognition models: identifiers, display
//! metadata, and source URLs, plus lookup by identifier.

use vstd::prelude::*;

verus! {

/// One entry of the model catalog.
pub struct ModelInfo {
    pub name: String,
    pub display_name: String,
    pub size_mb: u64,
    pub description: String,
    pub url: String,
}

impl Clone for ModelInfo {
    fn clone(&self) -> (r: Self)
        ensures
            r == *self,
    {
        ModelInfo {
            name: self.name.clone(),
            display_name: self.display_name.clone(),
            size_mb: self.size_mb,
            description: self.description.clone(),
            url: self.url.clone(),
        }
    }
}

/// A catalog entry has exactly these field values.
pub open spec fn model_is(
    m: ModelInfo,
    name: Seq<char>,
    display_name: Seq<char>,
    size_mb: u64,
    description: Seq<char>,
    url: Seq<char>,
) -> bool {
    &&& m.name@ == name
    &&& m.display_name@ == display_name
    &&& m.size_mb == size_mb
    &&& m.description@ == description
    &&& m.url@ == url
}

/// The full catalog, entry by entry, in its stable order.
pub open spec fn catalog_matches(s: Seq<ModelInfo>) -> bool {
    &&& s.len() == 6
    &&& model_is(
        s[0],
        "tiny"@,
        "Tiny"@,
        75,
        "Fastest, lowest accuracy"@,
        "https://huggingface.co/ggerganov/whisper.cpp/resolve/main/ggml-tiny.bin"@,
    )
    &&& model_is(
        s[1],
        "base"@,
        "Base"@,
        148,
        "Fast, good for simple audio"@,
        "https://huggingface.co/ggerganov/whisper.cpp/resolve/main/ggml-base.bin"@,
    )
    &&& model_is(
        s[2],
        "small"@,
        "Small"@,
        488,
        "Balanced speed and accuracy"@,
        "https://huggingface.co/ggerganov/whisper.cpp/resolve/main/ggml-small.bin"@,
    )
    &&& model_is(
        s[3],
        "medium"@,
        "Medium"@,
        1500,
        "High accuracy, slower"@,
        "https://huggingface.co/ggerganov/whisper.cpp/resolve/main/ggml-medium.bin"@,
    )
    &&& model_is(
        s[4],
        "large-v3"@,
        "Large v3"@,
        3000,
        "Best accuracy, slowest"@,
        "https://huggingface.co/ggerganov/whisper.cpp/resolve/main/ggml-large-v3.bin"@,
    )
    &&& model_is(
        s[5],
        "large-v3-turbo"@,
        "Large v3 Turbo"@,
        1600,
        "Fast and accurate"@,
        "https://huggingface.co/ggerganov/whisper.cpp/resolve/main/ggml-large-v3-turbo.bin"@,
    )
}

/// An identifier is known exactly when it names one of the catalog entries.
pub open spec fn known_model(name: Seq<char>) -> bool {
    ||| name == "tiny"@
    ||| name == "base"@
    ||| name == "small"@
    ||| name == "medium"@
    ||| name == "large-v3"@
    ||| name == "large-v3-turbo"@
}

/// The source URL of a known identifier (the empty sequence otherwise).
pub open spec fn model_url(name: Seq<char>) -> Seq<char> {
    if name == "tiny"@ {
        "https://huggingface.co/ggerganov/whisper.cpp/resolve/main/ggml-tiny.bin"@
    } else if name == "base"@ {
        "https://huggingface.co/ggerganov/whisper.cpp/resolve/main/ggml-base.bin"@
    } else if name == "small"@ {
        "https://huggingface.co/ggerganov/whisper.cpp/resolve/main/ggml-small.bin"@
    } else if name == "medium"@ {
        "https://huggingface.co/ggerganov/whisper.cpp/resolve/main/ggml-medium.bin"@
    } else if name == "large-v3"@ {
        "https://huggingface.co/ggerganov/whisper.cpp/resolve/main/ggml-large-v3.bin"@
    } else if name == "large-v3-turbo"@ {
        "https://huggingface.co/ggerganov/whisper.cpp/resolve/main/ggml-large-v3-turbo.bin"@
    } else {
        Seq::empty()
    }
}

/// Returns the static catalog: stable order, no side effects.
pub fn get_available_models() -> (r: Vec<ModelInfo>)
    ensures
        catalog_matches(r@),
{
    let mut v: Vec<ModelInfo> = Vec::new();
    v.push(ModelInfo {
        name: "tiny".to_owned(),
        display_name: "Tiny".to_owned(),
        size_mb: 75,
        description: "Fastest, lowest accuracy".to_owned(),
        url: "https://huggingface.co/ggerganov/whisper.cpp/resolve/main/ggml-tiny.bin".to_owned(),
    });
    v.push(ModelInfo {
        name: "base".to_owned(),
        display_name: "Base".to_owned(),
        size_mb: 148,
        description: "Fast, good for simple audio".to_owned(),
        url: "https://huggingface.co/ggerganov/whisper.cpp/resolve/main/ggml-base.bin".to_owned(),
    });
    v.push(ModelInfo {
        name: "small".to_owned(),
        display_name: "Small".to_owned(),
        size_mb: 488,
        description: "Balanced speed and accuracy".to_owned(),
        url: "https://huggingface.co/ggerganov/whisper.cpp/resolve/main/ggml-small.bin".to_owned(),
    });
    v.push(ModelInfo {
        name: "medium".to_owned(),
        display_name: "Medium".to_owned(),
        size_mb: 1500,
        description: "High accuracy, slower".to_owned(),
        url: "https://huggingface.co/ggerganov/whisper.cpp/resolve/main/ggml-medium.bin".to_owned(),
    });
    v.push(ModelInfo {
        name: "large-v3".to_owned(),
        display_name: "Large v3".to_owned(),
        size_mb: 3000,
        description: "Best accuracy, slowest".to_owned(),
        url: "https://huggingface.co/ggerganov/whisper.cpp/resolve/main/ggml-large-v3.bin".to_owned(),
    });
    v.push(ModelInfo {
        name: "large-v3-turbo".to_owned(),
        display_name: "Large v3 Turbo".to_owned(),
        size_mb: 1600,
        description: "Fast and accurate".to_owned(),
        url: "https://huggingface.co/ggerganov/whisper.cpp/resolve/main/ggml-large-v3-turbo.bin".to_owned(),
    });
    v
}

/// The display label of a known identifier (the empty sequence otherwise).
pub open spec fn model_display_name(name: Seq<char>) -> Seq<char> {
    if name == "tiny"@ {
        "Tiny"@
    } else if name == "base"@ {
        "Base"@
    } else if name == "small"@ {
        "Small"@
    } else if name == "medium"@ {
        "Medium"@
    } else if name == "large-v3"@ {
        "Large v3"@
    } else if name == "large-v3-turbo"@ {
        "Large v3 Turbo"@
    } else {
        Seq::empty()
    }
}

/// The expected size in megabytes of a known identifier (zero otherwise).
pub open spec fn model_size_mb(name: Seq<char>) -> u64 {
    if name == "tiny"@ {
        75
    } else if name == "base"@ {
        148
    } else if name == "small"@ {
        488
    } else if name == "medium"@ {
        1500
    } else if name == "large-v3"@ {
        3000
    } else if name == "large-v3-turbo"@ {
        1600
    } else {
        0
    }
}

/// The description of a known identifier (the empty sequence otherwise).
pub open spec fn model_description(name: Seq<char>) -> Seq<char> {
    if name == "tiny"@ {
        "Fastest, lowest accuracy"@
    } else if name == "base"@ {
        "Fast, good for simple audio"@
    } else if name == "small"@ {
        "Balanced speed and accuracy"@
    } else if name == "medium"@ {
        "High accuracy, slower"@
    } else if name == "large-v3"@ {
        "Best accuracy, slowest"@
    } else if name == "large-v3-turbo"@ {
        "Fast and accurate"@
    } else {
        Seq::empty()
    }
}

/// Looks the identifier up in the catalog: `Some` exactly for known
/// identifiers, carrying that entry, every field fixed.
pub fn find_model(model_name: &str) -> (r: Option<ModelInfo>)
    ensures
        r is Some <==> known_model(model_name@),
        r matches Some(m) ==> model_is(
            m,
            model_name@,
            model_display_name(model_name@),
            model_size_mb(model_name@),
            model_description(model_name@),
            model_url(model_name@),
        ),
{
    let models = get_available_models();
    let name: String = model_name.to_owned();
    proof {
        reveal_strlit("tiny");
        reveal_strlit("base");
        reveal_strlit("small");
        reveal_strlit("medium");
        reveal_strlit("large-v3");
        reveal_strlit("large-v3-turbo");
    }
    let mut i: usize = 0;
    while i < models.len()
        invariant
            catalog_matches(models@),
            0 <= i <= models@.len(),
            name@ == model_name@,
            forall|j: int| 0 <= j < i ==> models@[j].name@ != name@,
        decreases models@.len() - i,
    {
        if models[i].name == name {
            return Some(models[i].clone());
        }
        i += 1;
    }
    None
}

/// A catalog entry together with whether its artifact is present on disk.
pub struct ModelStatus {
    pub info: ModelInfo,
    pub downloaded: bool,
}

/// Pairs each catalog entry with its presence flag, in order. The flags are
/// observed by the I/O shell (one existence check per entry, nothing else).
pub fn model_statuses(models: Vec<ModelInfo>, downloaded: Vec<bool>) -> (r: Vec<ModelStatus>)
    requires
        models@.len() == downloaded@.len(),
    ensures
        r@.len() == models@.len(),
        forall|i: int|
            0 <= i < r@.len() ==> r@[i].info == models@[i] && r@[i].downloaded == downloaded@[i],
{
    let mut r: Vec<ModelStatus> = Vec::new();
    let mut i: usize = 0;
    while i < models.len()
        invariant
            models@.len() == downloaded@.len(),
            0 <= i <= models@.len(),
            r@.len() == i,
            forall|j: int|
                0 <= j < i ==> r@[j].info == models@[j] && r@[j].downloaded == downloaded@[j],
        decreases models@.len() - i,
    {
        r.push(ModelStatus { info: models[i].clone(), downloaded: downloaded[i] });
        i += 1;
    }
    r
}

} // verus!
