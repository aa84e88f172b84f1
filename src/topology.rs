//! Layer topology of a feed-forward network: which layers a list of layer
//! settings produces, and the matrix shapes that flow through them.
use vstd::prelude::*;

verus! {

/// Activation function applied by a layer.
#[derive(Clone, Copy, Debug, PartialEq, Eq, Structural)]
pub enum Activations {
    Sigmoid,
    Linear,
}

/// One entry of a network description: a neuron count and, for every entry
/// but the first, the activation of the layer that produces those neurons.
#[derive(Clone, Copy, Debug, PartialEq, Eq, Structural)]
pub struct LayerSettings {
    pub neurons: usize,
    pub activation: Activations,
}

/// The shape of one layer: its weight matrix is `neurons x inputs`, its
/// bias, pre-activation and state columns are `neurons x 1`.
#[derive(Clone, Copy, Debug, PartialEq, Eq, Structural)]
pub struct LayerShape {
    pub inputs: usize,
    pub neurons: usize,
    pub activation: Activations,
}

/// Why a network description was refused.
#[derive(Clone, Copy, Debug, PartialEq, Eq, Structural)]
pub enum NetworkError {
    /// Fewer than two entries: the description holds no layer.
    TooFewLayers,
}

/// The layer built from the consecutive entries `i` and `i + 1`.
pub open spec fn layer_of(settings: Seq<LayerSettings>, i: int) -> LayerShape {
    LayerShape {
        inputs: settings[i].neurons,
        neurons: settings[i + 1].neurons,
        activation: settings[i + 1].activation,
    }
}

/// The layers that a description yields: one for each pair of consecutive entries.
pub open spec fn layers_of(settings: Seq<LayerSettings>) -> Seq<LayerShape> {
    Seq::new((settings.len() - 1) as nat, |i: int| layer_of(settings, i))
}

/// Each layer reads exactly what the layer before it produces.
pub open spec fn chained(shapes: Seq<LayerShape>) -> bool {
    forall|i: int| 0 < i < shapes.len() ==> #[trigger] shapes[i].inputs == shapes[i - 1].neurons
}

/// Builds the layer shapes of a network from its description, one layer for
/// each pair of consecutive entries. A description with fewer than two
/// entries is refused.
pub fn layer_shapes(settings: &Vec<LayerSettings>) -> (r: Result<Vec<LayerShape>, NetworkError>)
    ensures
        settings@.len() < 2 ==> r == Err::<Vec<LayerShape>, NetworkError>(NetworkError::TooFewLayers),
        settings@.len() >= 2 ==> r is Ok && r->Ok_0@ == layers_of(settings@),
{
    if settings.len() < 2 {
        return Err(NetworkError::TooFewLayers);
    }
    let mut shapes: Vec<LayerShape> = Vec::new();
    let mut i: usize = 0;
    while i < settings.len() - 1
        invariant
            settings@.len() >= 2,
            i + 1 <= settings@.len(),
            shapes@ == layers_of(settings@).take(i as int),
        decreases settings@.len() - i,
    {
        shapes.push(
            LayerShape {
                inputs: settings[i].neurons,
                neurons: settings[i + 1].neurons,
                activation: settings[i + 1].activation,
            },
        );
        i = i + 1;
        assert(shapes@ =~= layers_of(settings@).take(i as int));
    }
    assert(shapes@ =~= layers_of(settings@));
    Ok(shapes)
}

/// The shape of what a stack of layers outputs for an input of shape
/// `rows x cols`: each layer turns `inputs x c` into `neurons x c`, and an
/// input whose row count differs from the layer's `inputs` has no result.
pub open spec fn forward_shape(shapes: Seq<LayerShape>, rows: nat, cols: nat) -> Option<(nat, nat)>
    decreases shapes.len(),
{
    if shapes.len() == 0 {
        Some((rows, cols))
    } else if shapes[0].inputs != rows {
        None
    } else {
        forward_shape(shapes.drop_first(), shapes[0].neurons as nat, cols)
    }
}

/// Computes the shape of what the layers output for an input of shape
/// `rows x cols`, or `None` where some layer cannot take what reaches it.
pub fn output_shape(shapes: &Vec<LayerShape>, rows: usize, cols: usize) -> (r: Option<(usize, usize)>)
    ensures
        match r {
            Some((rr, rc)) => forward_shape(shapes@, rows as nat, cols as nat) == Some((rr as nat, rc as nat)),
            None => forward_shape(shapes@, rows as nat, cols as nat) is None,
        },
{
    let mut cur: usize = rows;
    let mut i: usize = 0;
    assert(shapes@.skip(0) =~= shapes@);
    while i < shapes.len()
        invariant
            i <= shapes@.len(),
            forward_shape(shapes@, rows as nat, cols as nat) == forward_shape(
                shapes@.skip(i as int),
                cur as nat,
                cols as nat,
            ),
        decreases shapes@.len() - i,
    {
        let ghost rest = shapes@.skip(i as int);
        assert(rest[0] == shapes@[i as int]);
        assert(rest.drop_first() =~= shapes@.skip(i + 1));
        if shapes[i].inputs != cur {
            return None;
        }
        cur = shapes[i].neurons;
        i = i + 1;
    }
    assert(shapes@.skip(i as int).len() == 0);
    Some((cur, cols))
}

/// The layers built from a description are chained.
pub proof fn lemma_layers_chained(settings: Seq<LayerSettings>)
    requires
        settings.len() >= 2,
    ensures
        chained(layers_of(settings)),
{
}

/// A chained stack of layers takes an input as wide as its first layer's
/// inputs to an output as tall as its last layer's neurons, with the input's
/// column count kept.
pub proof fn lemma_chained_forward(shapes: Seq<LayerShape>, cols: nat)
    requires
        shapes.len() >= 1,
        chained(shapes),
    ensures
        forward_shape(shapes, shapes[0].inputs as nat, cols) == Some(
            (shapes.last().neurons as nat, cols),
        ),
    decreases shapes.len(),
{
    let rest = shapes.drop_first();
    if rest.len() >= 1 {
        assert(chained(rest)) by {
            assert forall|i: int| 0 < i < rest.len() implies #[trigger] rest[i].inputs
                == rest[i - 1].neurons by {
                assert(shapes[i + 1].inputs == shapes[i].neurons);
            }
        }
        assert(shapes[1].inputs == shapes[0].neurons);
        lemma_chained_forward(rest, cols);
        assert(rest.last() == shapes.last());
    } else {
        assert(forward_shape(rest, shapes[0].neurons as nat, cols) == Some((shapes[0].neurons as nat, cols)));
    }
}

/// For every network description with at least one layer, feeding a single
/// column as wide as the first entry yields a single column with as many rows
/// as the last entry has neurons.
pub proof fn lemma_output_is_last_column(settings: Seq<LayerSettings>)
    requires
        settings.len() >= 2,
    ensures
        forward_shape(layers_of(settings), settings[0].neurons as nat, 1) == Some(
            (settings.last().neurons as nat, 1nat),
        ),
{
    lemma_layers_chained(settings);
    lemma_chained_forward(layers_of(settings), 1);
}

} // verus!
