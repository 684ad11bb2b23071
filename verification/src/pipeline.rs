//! The shape of the pipelines that carry a stream.

use crate::stream::Direction;
use crate::text::{
    decimal, decimal_text, lemma_decimal_injective, lemma_decimal_reads_back, value,
};
use vstd::prelude::*;
use vstd::string::*;

verus! {

/// The two ends of a pipeline.
#[derive(Debug, Clone, Copy, PartialEq, Eq, Structural)]
pub enum End {
    Source,
    Sink,
}

/// The name of the element at one end of the pipeline of a stream.
#[derive(Debug, Clone, Copy, PartialEq, Eq, Structural)]
pub struct ElementName {
    pub end: End,
    pub id: u32,
}

impl ElementName {
    /// The name as text: `src` or `sink`, then the stream's number.
    pub open spec fn text(self) -> Seq<char> {
        match self.end {
            End::Source => "src"@ + decimal(self.id as nat),
            End::Sink => "sink"@ + decimal(self.id as nat),
        }
    }

    /// Renders the name.
    pub fn to_text(&self) -> (r: String)
        ensures
            r@ == self.text(),
    {
        let mut text = match self.end {
            End::Source => "src".to_owned(),
            End::Sink => "sink".to_owned(),
        };
        text.append(decimal_text(self.id).as_str());
        text
    }
}

/// The kinds of elements that pipelines are made of.
#[derive(Debug, Clone, Copy, PartialEq, Eq, Structural)]
pub enum Factory {
    AutoAudioSrc,
    AppSrc,
    Queue,
    AudioConvert,
    AudioResample,
    AutoAudioSink,
    AppSink,
}

impl Factory {
    /// The name under which GStreamer registers the factory.
    pub open spec fn text(self) -> Seq<char> {
        match self {
            Factory::AutoAudioSrc => "autoaudiosrc"@,
            Factory::AppSrc => "appsrc"@,
            Factory::Queue => "queue"@,
            Factory::AudioConvert => "audioconvert"@,
            Factory::AudioResample => "audioresample"@,
            Factory::AutoAudioSink => "autoaudiosink"@,
            Factory::AppSink => "appsink"@,
        }
    }

    /// The name under which GStreamer registers the factory.
    pub fn name(self) -> (r: &'static str)
        ensures
            r@ == self.text(),
    {
        match self {
            Factory::AutoAudioSrc => "autoaudiosrc",
            Factory::AppSrc => "appsrc",
            Factory::Queue => "queue",
            Factory::AudioConvert => "audioconvert",
            Factory::AudioResample => "audioresample",
            Factory::AutoAudioSink => "autoaudiosink",
            Factory::AppSink => "appsink",
        }
    }
}

/// An element to be made.
#[derive(Debug, Clone, Copy, PartialEq, Eq, Structural)]
pub struct ElementPlan {
    pub factory: Factory,
    /// The element's name; GStreamer picks one where there is none.
    pub name: Option<ElementName>,
    /// Value for the property `max-size-buffers`, where it is to be set.
    pub max_size_buffers: Option<u32>,
}

/// An element with neither a name nor a property.
pub open spec fn plain(factory: Factory) -> ElementPlan {
    ElementPlan { factory, name: None, max_size_buffers: None }
}

/// A queue that holds at most `buffers` buffers.
pub open spec fn queue(buffers: u32) -> ElementPlan {
    ElementPlan { factory: Factory::Queue, name: None, max_size_buffers: Some(buffers) }
}

/// The element at one end of the pipeline of stream `id`.
pub open spec fn endpoint(factory: Factory, end: End, id: u32) -> ElementPlan {
    ElementPlan { factory, name: Some(ElementName { end, id }), max_size_buffers: None }
}

/// The elements of the pipeline of stream `id`, from source to sink.
pub open spec fn pipeline_elements(id: u32, direction: Direction) -> Seq<ElementPlan> {
    match direction {
        Direction::Input => seq![
            endpoint(Factory::AutoAudioSrc, End::Source, id),
            queue(10),
            plain(Factory::AudioConvert),
            plain(Factory::AudioResample),
            endpoint(Factory::AppSink, End::Sink, id),
        ],
        Direction::Output => seq![
            endpoint(Factory::AppSrc, End::Source, id),
            queue(20),
            plain(Factory::AudioConvert),
            plain(Factory::AudioResample),
            endpoint(Factory::AutoAudioSink, End::Sink, id),
        ],
    }
}

/// The elements to be made for stream `id`. They are added to the pipeline in
/// this order, and each is linked to the next.
pub fn build_pipeline(id: u32, direction: Direction) -> (r: Vec<ElementPlan>)
    ensures
        r@ == pipeline_elements(id, direction),
{
    let (first, buffers, last) = match direction {
        Direction::Input => (Factory::AutoAudioSrc, 10u32, Factory::AppSink),
        Direction::Output => (Factory::AppSrc, 20u32, Factory::AutoAudioSink),
    };
    vec![
        ElementPlan {
            factory: first,
            name: Some(ElementName { end: End::Source, id }),
            max_size_buffers: None,
        },
        ElementPlan { factory: Factory::Queue, name: None, max_size_buffers: Some(buffers) },
        ElementPlan { factory: Factory::AudioConvert, name: None, max_size_buffers: None },
        ElementPlan { factory: Factory::AudioResample, name: None, max_size_buffers: None },
        ElementPlan {
            factory: last,
            name: Some(ElementName { end: End::Sink, id }),
            max_size_buffers: None,
        },
    ]
}

/// Different names have different texts: the elements of two streams, and the
/// two ends of one stream, cannot be mistaken for each other.
pub proof fn lemma_element_names_distinct(a: ElementName, b: ElementName)
    requires
        a.text() == b.text(),
    ensures
        a == b,
{
    reveal_strlit("src");
    reveal_strlit("sink");
    if a.end == b.end {
        let skip: int = match a.end {
            End::Source => 3,
            End::Sink => 4,
        };
        assert(a.text().skip(skip) == decimal(a.id as nat));
        assert(b.text().skip(skip) == decimal(b.id as nat));
        lemma_decimal_injective(a.id as nat, b.id as nat);
    } else {
        let (source, sink) = if a.end is Source {
            (a, b)
        } else {
            (b, a)
        };
        assert(source.text()[1] == "src"@[1]);
        assert(sink.text()[1] == "sink"@[1]);
    }
}

/// The name of each end is found in the pipeline, at that end and nowhere else.
pub proof fn lemma_ends_are_named(id: u32, direction: Direction, end: End, i: int)
    requires
        0 <= i < pipeline_elements(id, direction).len(),
    ensures
        pipeline_elements(id, direction)[i].name == Some(ElementName { end, id }) <==> i == match end {
            End::Source => 0,
            End::Sink => pipeline_elements(id, direction).len() - 1,
        },
{
}

/// The application feeds the pipeline of an output stream and drains that of
/// an input stream, and does neither elsewhere.
pub proof fn lemma_application_end(id: u32, direction: Direction, i: int)
    requires
        0 <= i < pipeline_elements(id, direction).len(),
    ensures
        pipeline_elements(id, direction)[i].factory is AppSrc <==> direction is Output && i == 0,
        pipeline_elements(id, direction)[i].factory is AppSink <==> direction is Input && i
            == pipeline_elements(id, direction).len() - 1,
{
}

/// The pipelines of two streams of one direction differ in nothing but the
/// number in the names of their ends.
pub proof fn lemma_pipelines_of_a_direction_are_alike(a: u32, b: u32, direction: Direction, i: int)
    requires
        0 <= i < pipeline_elements(a, direction).len(),
    ensures
        pipeline_elements(a, direction).len() == pipeline_elements(b, direction).len(),
        pipeline_elements(a, direction)[i].factory == pipeline_elements(b, direction)[i].factory,
        pipeline_elements(a, direction)[i].max_size_buffers == pipeline_elements(
            b,
            direction,
        )[i].max_size_buffers,
        match (pipeline_elements(a, direction)[i].name, pipeline_elements(b, direction)[i].name) {
            (Some(x), Some(y)) => x.end == y.end && x.id == a && y.id == b,
            (None, None) => true,
            _ => false,
        },
{
}

/// Every pipeline runs from a source through a queue, a converter and a
/// resampler to a sink. The queue, and nothing else, is limited: to twice as
/// many buffers for playback as for capture.
pub proof fn lemma_shape_of_pipelines(id: u32, direction: Direction, i: int)
    requires
        0 <= i < 5,
    ensures
        ({
            let elements = pipeline_elements(id, direction);
            &&& elements.len() == 5
            &&& elements[i].factory is AutoAudioSrc <==> direction is Input && i == 0
            &&& elements[i].factory is AppSrc <==> direction is Output && i == 0
            &&& elements[i].factory is Queue <==> i == 1
            &&& elements[i].factory is AudioConvert <==> i == 2
            &&& elements[i].factory is AudioResample <==> i == 3
            &&& elements[i].factory is AutoAudioSink <==> direction is Output && i == 4
            &&& elements[i].factory is AppSink <==> direction is Input && i == 4
            &&& elements[i].max_size_buffers is Some <==> elements[i].factory is Queue
            &&& elements[i].max_size_buffers is Some ==> elements[i].max_size_buffers->0
                == if direction is Output {
                20u32
            } else {
                10u32
            }
            &&& elements[i].name is Some <==> i == 0 || i == 4
            &&& elements[i].name is Some ==> elements[i].name->0.id == id && (
            elements[i].name->0.end is Source <==> i == 0)
        }),
{
}

/// The name of an end is `src` or `sink`, and then the number of the stream.
pub proof fn lemma_names_spell_end_and_number(name: ElementName)
    ensures
        name.end is Source ==> name.text().take(3) == "src"@ && value(name.text().skip(3))
            == name.id && name.text().skip(3) == decimal(name.id as nat),
        name.end is Sink ==> name.text().take(4) == "sink"@ && value(name.text().skip(4))
            == name.id && name.text().skip(4) == decimal(name.id as nat),
{
    reveal_strlit("src");
    reveal_strlit("sink");
    lemma_decimal_reads_back(name.id as nat);
    if name.end is Source {
        assert(name.text().take(3) == "src"@);
        assert(name.text().skip(3) == decimal(name.id as nat));
    } else {
        assert(name.text().take(4) == "sink"@);
        assert(name.text().skip(4) == decimal(name.id as nat));
    }
}

/// The names under which GStreamer registers the factories.
pub proof fn lemma_factory_names()
    ensures
        Factory::AutoAudioSrc.text() == "autoaudiosrc"@,
        Factory::AppSrc.text() == "appsrc"@,
        Factory::Queue.text() == "queue"@,
        Factory::AudioConvert.text() == "audioconvert"@,
        Factory::AudioResample.text() == "audioresample"@,
        Factory::AutoAudioSink.text() == "autoaudiosink"@,
        Factory::AppSink.text() == "appsink"@,
{
}

} // verus!
