cbuffer Params : register(b0) {
    uint width;
    uint height;
    uint src_width;
    uint src_height;
    uint _pad0;
    uint _pad1;
    uint _pad2;
};
Texture2D<float4> srcTex : register(t0);
SamplerState linearSampler : register(s0);
RWTexture2D<unorm float4> outTex : register(u0);

[numthreads(16, 16, 1)]
void main(uint3 tid : SV_DispatchThreadID) {
    uint x = tid.x;
    uint y = tid.y;
    if (x >= width || y >= height) return;
    float2 uv = (float2(x, y) + 0.5) / float2(width, height);
    float4 c = srcTex.SampleLevel(linearSampler, uv, 0.0);
    outTex[uint2(x, y)] = c;
}
