// BT.601: R = Y + 1.402*(Cr-0.5); G = Y - 0.344*(Cb-0.5) - 0.714*(Cr-0.5); B = Y + 1.772*(Cb-0.5)
cbuffer Params : register(b0) {
    uint width;
    uint height;
};
Texture2D<float> Ytex : register(t0);
Texture2D<float> Utex : register(t1);
Texture2D<float> Vtex : register(t2);
RWTexture2D<float4> rgbaOut : register(u0);

static const float kR = 1.402;
static const float kGcb = 0.344;
static const float kGcr = 0.714;
static const float kB = 1.772;

[numthreads(16, 16, 1)]
void main(uint3 gid : SV_GroupID, uint3 tid : SV_GroupThreadID) {
    uint x = gid.x * 16u + tid.x;
    uint y = gid.y * 16u + tid.y;
    if (x >= width || y >= height) return;
    float yVal = Ytex[uint2(x, y)].r;
    float uVal = Utex[uint2(x / 2u, y / 2u)].r - 0.5;
    float vVal = Vtex[uint2(x / 2u, y / 2u)].r - 0.5;
    float r = saturate(yVal + kR * vVal);
    float g = saturate(yVal - kGcb * uVal - kGcr * vVal);
    float b = saturate(yVal + kB * uVal);
    rgbaOut[uint2(x, y)] = float4(r, g, b, 1.0);
}
